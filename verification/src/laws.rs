use vstd::prelude::*;
use vstd::set::fold::{is_fun_commutative, lemma_fold_empty, lemma_fold_insert};
use vstd::string::StringSliceAdditionalSpecFns;

use crate::admin::{grants_admin, ADMIN_SECRET_KEY};
use crate::chat::{
    after_exchange, conversation_of, count_step, exchange, is_possible_reply, message_total,
    spec_replies, spec_topic, MessageView, Topic, BEST_INVESTMENT_REPLIES, BITCOIN_REPLIES,
    DEFAULT_REPLIES, ETHEREUM_REPLIES, EXPLAIN_REPLIES, GETTING_STARTED_REPLIES,
    GREETING_REPLIES, HELP_REPLY, MARKET_REPLIES, PORTFOLIO_REPLIES, SECURITY_REPLIES,
    TRENDS_REPLIES, WHICH_COIN_REPLIES,
};
use crate::text::contains_text;
use crate::error::{spec_own_message, spec_status_code, AppError};
use crate::models::UserRecord;
use crate::user::{authentication_outcome, password_verdict, record_user, UserView};

verus! {

/// After a user's exchange with the assistant, reading that user's
/// conversation gives what it held before followed by the user's message
/// and the reply; every other user's conversation reads as before.
pub proof fn lemma_exchange_then_read(
    conversations: Map<i64, Seq<MessageView>>,
    user_id: i64,
    message: Seq<char>,
    user_time: Seq<char>,
    reply: Seq<char>,
    reply_time: Seq<char>,
    other_id: i64,
)
    ensures
        conversation_of(
            after_exchange(conversations, user_id, message, user_time, reply, reply_time),
            user_id,
        ) == conversation_of(conversations, user_id) + exchange(
            message,
            user_time,
            reply,
            reply_time,
        ),
        other_id != user_id ==> conversation_of(
            after_exchange(conversations, user_id, message, user_time, reply, reply_time),
            other_id,
        ) == conversation_of(conversations, other_id),
{
}

/// Conversations only grow: what a user's conversation held before an
/// exchange (anyone's) is still its beginning afterwards.
pub proof fn lemma_conversations_only_grow(
    conversations: Map<i64, Seq<MessageView>>,
    user_id: i64,
    message: Seq<char>,
    user_time: Seq<char>,
    reply: Seq<char>,
    reply_time: Seq<char>,
    any_id: i64,
)
    ensures
        conversation_of(conversations, any_id).is_prefix_of(
            conversation_of(
                after_exchange(conversations, user_id, message, user_time, reply, reply_time),
                any_id,
            ),
        ),
{
    let before = conversation_of(conversations, any_id);
    let after = conversation_of(
        after_exchange(conversations, user_id, message, user_time, reply, reply_time),
        any_id,
    );
    assert(after.subrange(0, before.len() as int) =~= before);
}

/// A help request is always answered with the one help text.
pub proof fn lemma_help_has_one_answer(lower: Seq<char>, reply: Seq<char>)
    requires
        spec_topic(lower) == Topic::Help,
    ensures
        is_possible_reply(lower, reply) <==> reply == HELP_REPLY@,
{
    let replies = spec_replies(Topic::Help);
    if reply == HELP_REPLY@ {
        assert(replies[0]@ == reply);
    }
}

/// Whoever registered with a password signs in with it: once the password
/// verifies against the stored hash (as it does against the hash made at
/// registration), looking the name up signs in as the stored user.
pub proof fn lemma_registered_password_signs_in(password: Seq<char>, record: UserRecord)
    requires
        password_verdict(password, record.password_hash@) == Some(true),
    ensures
        authentication_outcome(password, Ok(Some(record))) == Some(
            Ok::<UserView, AppError>(record_user(record)),
        ),
{
}

/// Signing in against a hash made at registration is always decided:
/// the registered password signs in as the stored user, and any password
/// either signs in as that same user or is refused as invalid credentials.
pub proof fn lemma_registered_hash_always_decides(
    password: Seq<char>,
    other: Seq<char>,
    record: UserRecord,
)
    requires
        password_verdict(password, record.password_hash@) == Some(true),
        forall|any: Seq<char>| #[trigger] password_verdict(any, record.password_hash@) is Some,
    ensures
        authentication_outcome(password, Ok(Some(record))) == Some(
            Ok::<UserView, AppError>(record_user(record)),
        ),
        authentication_outcome(other, Ok(Some(record))) == Some(
            Ok::<UserView, AppError>(record_user(record)),
        ) || authentication_outcome(other, Ok(Some(record))) == Some(
            Err::<UserView, AppError>(AppError::InvalidCredentials),
        ),
{
    assert(password_verdict(other, record.password_hash@) is Some);
}

/// A password that does not verify never signs in.
pub proof fn lemma_wrong_password_refused(password: Seq<char>, record: UserRecord)
    requires
        password_verdict(password, record.password_hash@) == Some(false),
    ensures
        authentication_outcome(password, Ok(Some(record))) == Some(
            Err::<UserView, AppError>(AppError::InvalidCredentials),
        ),
{
}

/// The failures the service raises itself are exactly the client errors
/// (status 4xx); the failures of the database, the templates and the
/// tokens are server errors (status 500).
pub proof fn lemma_own_failures_are_client_errors(e: AppError)
    ensures
        spec_own_message(&e) is Some <==> 400 <= spec_status_code(&e) < 500,
        spec_own_message(&e) is None <==> spec_status_code(&e) == 500,
{
}

/// Only the exact secret admits a request as the administrator's.
pub proof fn lemma_only_the_secret_grants_admin(header: Seq<u8>)
    ensures
        grants_admin(header) <==> header == ADMIN_SECRET_KEY.spec_bytes(),
{
    broadcast use vstd::string::group_string_axioms;

    reveal_strlit("im-the-admin");
    let secret = ADMIN_SECRET_KEY.spec_bytes();
    assert(vstd::string::is_ascii(ADMIN_SECRET_KEY));
    assert(secret =~= Seq::new(ADMIN_SECRET_KEY@.len(), |i| ADMIN_SECRET_KEY@[i] as u8));
    if header == secret {
        assert forall|i: int| 0 <= i < header.len() implies crate::admin::is_visible_ascii(
            #[trigger] header[i],
        ) by {
            assert(header[i] == ADMIN_SECRET_KEY@[i] as u8);
        }
    }
}

proof fn lemma_count_step_commutative(conversations: Map<i64, Seq<MessageView>>)
    ensures
        is_fun_commutative(count_step(conversations)),
{
    let f = count_step(conversations);
    assert forall|a1: i64, a2: i64, b: nat| #[trigger] f(f(b, a1), a2) == f(f(b, a2), a1) by {}
}

/// Counting over a finite set of users gives the same total in two maps
/// whose conversations of those users have the same lengths.
proof fn lemma_count_same_lengths(
    users: Set<i64>,
    m1: Map<i64, Seq<MessageView>>,
    m2: Map<i64, Seq<MessageView>>,
)
    requires
        users.finite(),
        forall|u: i64| users.contains(u) ==> m1[u].len() == m2[u].len(),
    ensures
        users.fold(0nat, count_step(m1)) == users.fold(0nat, count_step(m2)),
    decreases users.len(),
{
    lemma_count_step_commutative(m1);
    lemma_count_step_commutative(m2);
    if users.len() == 0 {
        assert(users =~= Set::<i64>::empty());
        lemma_fold_empty(0nat, count_step(m1));
        lemma_fold_empty(0nat, count_step(m2));
    } else {
        let a = users.choose();
        let rest = users.remove(a);
        lemma_count_same_lengths(rest, m1, m2);
        lemma_fold_insert(rest, 0nat, count_step(m1), a);
        lemma_fold_insert(rest, 0nat, count_step(m2), a);
        assert(rest.insert(a) =~= users);
    }
}

/// An exchange adds exactly two messages to all conversations together
/// (finitely many users have a conversation).
pub proof fn lemma_exchange_adds_two_messages(
    conversations: Map<i64, Seq<MessageView>>,
    user_id: i64,
    message: Seq<char>,
    user_time: Seq<char>,
    reply: Seq<char>,
    reply_time: Seq<char>,
)
    requires
        conversations.dom().finite(),
    ensures
        after_exchange(conversations, user_id, message, user_time, reply, reply_time).dom().finite(),
        message_total(after_exchange(conversations, user_id, message, user_time, reply, reply_time))
            == message_total(conversations) + 2,
{
    let after = after_exchange(conversations, user_id, message, user_time, reply, reply_time);
    let rest = conversations.dom().remove(user_id);
    lemma_count_step_commutative(conversations);
    lemma_count_step_commutative(after);
    assert(after.dom() =~= rest.insert(user_id));
    lemma_count_same_lengths(rest, conversations, after);
    lemma_fold_insert(rest, 0nat, count_step(after), user_id);
    if conversations.dom().contains(user_id) {
        assert(rest.insert(user_id) =~= conversations.dom());
        lemma_fold_insert(rest, 0nat, count_step(conversations), user_id);
    } else {
        assert(rest =~= conversations.dom());
    }
}

/// The message greets: "oi", "olá" or "ola".
pub open spec fn says_hello(m: Seq<char>) -> bool {
    contains_text(m, "oi"@) || contains_text(m, "olá"@) || contains_text(m, "ola"@)
}

/// The message names Bitcoin: "bitcoin" or "btc".
pub open spec fn asks_bitcoin(m: Seq<char>) -> bool {
    contains_text(m, "bitcoin"@) || contains_text(m, "btc"@)
}

/// The message names Ethereum: "ethereum" or "eth".
pub open spec fn asks_ethereum(m: Seq<char>) -> bool {
    contains_text(m, "ethereum"@) || contains_text(m, "eth"@)
}

/// The message asks which coin to buy: "qual moeda", or both "moeda" and
/// "investir", or "qual cripto".
pub open spec fn asks_which_coin(m: Seq<char>) -> bool {
    ||| contains_text(m, "qual moeda"@)
    ||| contains_text(m, "moeda"@) && contains_text(m, "investir"@)
    ||| contains_text(m, "qual cripto"@)
}

/// The message asks for the best investment: "melhor investimento",
/// "melhor investir" or "onde investir".
pub open spec fn asks_best_investment(m: Seq<char>) -> bool {
    ||| contains_text(m, "melhor investimento"@)
    ||| contains_text(m, "melhor investir"@)
    ||| contains_text(m, "onde investir"@)
}

/// The message asks what investing is: "explique sobre investimento",
/// "o que é investimento" or "como funciona investimento".
pub open spec fn asks_explanation(m: Seq<char>) -> bool {
    ||| contains_text(m, "explique sobre investimento"@)
    ||| contains_text(m, "o que é investimento"@)
    ||| contains_text(m, "como funciona investimento"@)
}

/// The message asks how to start: "como começar", "começar a investir"
/// or "primeiros passos".
pub open spec fn asks_how_to_start(m: Seq<char>) -> bool {
    ||| contains_text(m, "como começar"@)
    ||| contains_text(m, "começar a investir"@)
    ||| contains_text(m, "primeiros passos"@)
}

/// The message asks about safety: "segurança", "seguro" or "proteger".
pub open spec fn asks_security(m: Seq<char>) -> bool {
    contains_text(m, "segurança"@) || contains_text(m, "seguro"@) || contains_text(m, "proteger"@)
}

/// The message asks about what is coming: "tendencias 2024",
/// "tendências 2024", "futuro" or "previsão".
pub open spec fn asks_trends(m: Seq<char>) -> bool {
    ||| contains_text(m, "tendencias 2024"@)
    ||| contains_text(m, "tendências 2024"@)
    ||| contains_text(m, "futuro"@)
    ||| contains_text(m, "previsão"@)
}

/// The message asks about the market: "mercado", "tendencia" or "tendência".
pub open spec fn asks_market(m: Seq<char>) -> bool {
    contains_text(m, "mercado"@) || contains_text(m, "tendencia"@) || contains_text(m, "tendência"@)
}

/// The message asks about a portfolio: "carteira", "portfolio" or "portfólio".
pub open spec fn asks_portfolio(m: Seq<char>) -> bool {
    contains_text(m, "carteira"@) || contains_text(m, "portfolio"@) || contains_text(
        m,
        "portfólio"@,
    )
}

/// The message asks for help: "ajuda" or "help".
pub open spec fn asks_help(m: Seq<char>) -> bool {
    contains_text(m, "ajuda"@) || contains_text(m, "help"@)
}

/// The topic of a lower-cased message is that of the first keyword group,
/// in the order greeting, Bitcoin, Ethereum, which coin, best investment,
/// explanation, getting started, security, trends, market, portfolio,
/// help, that the message mentions; a message that mentions none is about
/// nothing in particular. Each clause says when a topic is chosen, both
/// ways: it is chosen exactly when its group is mentioned and no earlier
/// group is.
pub proof fn lemma_first_mentioned_group_decides(m: Seq<char>)
    ensures
        spec_topic(m) == Topic::Greeting <==> says_hello(m),
        spec_topic(m) == Topic::Bitcoin <==> !says_hello(m) && asks_bitcoin(m),
        spec_topic(m) == Topic::Ethereum <==> !says_hello(m) && !asks_bitcoin(m) && asks_ethereum(m),
        spec_topic(m) == Topic::WhichCoin <==> !says_hello(m) && !asks_bitcoin(m) && !asks_ethereum(m)
            && asks_which_coin(m),
        spec_topic(m) == Topic::BestInvestment <==> !says_hello(m) && !asks_bitcoin(m)
            && !asks_ethereum(m) && !asks_which_coin(m) && asks_best_investment(m),
        spec_topic(m) == Topic::Explain <==> !says_hello(m) && !asks_bitcoin(m) && !asks_ethereum(m)
            && !asks_which_coin(m) && !asks_best_investment(m) && asks_explanation(m),
        spec_topic(m) == Topic::GettingStarted <==> !says_hello(m) && !asks_bitcoin(m)
            && !asks_ethereum(m) && !asks_which_coin(m) && !asks_best_investment(m)
            && !asks_explanation(m) && asks_how_to_start(m),
        spec_topic(m) == Topic::Security <==> !says_hello(m) && !asks_bitcoin(m)
            && !asks_ethereum(m) && !asks_which_coin(m) && !asks_best_investment(m)
            && !asks_explanation(m) && !asks_how_to_start(m) && asks_security(m),
        spec_topic(m) == Topic::Trends <==> !says_hello(m) && !asks_bitcoin(m) && !asks_ethereum(m)
            && !asks_which_coin(m) && !asks_best_investment(m) && !asks_explanation(m)
            && !asks_how_to_start(m) && !asks_security(m) && asks_trends(m),
        spec_topic(m) == Topic::Market <==> !says_hello(m) && !asks_bitcoin(m) && !asks_ethereum(m)
            && !asks_which_coin(m) && !asks_best_investment(m) && !asks_explanation(m)
            && !asks_how_to_start(m) && !asks_security(m) && !asks_trends(m) && asks_market(m),
        spec_topic(m) == Topic::Portfolio <==> !says_hello(m) && !asks_bitcoin(m)
            && !asks_ethereum(m) && !asks_which_coin(m) && !asks_best_investment(m)
            && !asks_explanation(m) && !asks_how_to_start(m) && !asks_security(m)
            && !asks_trends(m) && !asks_market(m) && asks_portfolio(m),
        spec_topic(m) == Topic::Help <==> !says_hello(m) && !asks_bitcoin(m) && !asks_ethereum(m)
            && !asks_which_coin(m) && !asks_best_investment(m) && !asks_explanation(m)
            && !asks_how_to_start(m) && !asks_security(m) && !asks_trends(m) && !asks_market(m)
            && !asks_portfolio(m) && asks_help(m),
        spec_topic(m) == Topic::Other <==> !says_hello(m) && !asks_bitcoin(m) && !asks_ethereum(m)
            && !asks_which_coin(m) && !asks_best_investment(m) && !asks_explanation(m)
            && !asks_how_to_start(m) && !asks_security(m) && !asks_trends(m) && !asks_market(m)
            && !asks_portfolio(m) && !asks_help(m),
{
}

/// `reply` is one of the texts of `table`.
pub open spec fn is_listed(table: Seq<&'static str>, reply: Seq<char>) -> bool {
    exists|i: int| 0 <= i < table.len() && table[i]@ == reply
}

/// Every reply the assistant may give comes from the table of its
/// message's topic, and every text of that table may be given: a market
/// question is answered from the market replies, an Ethereum question
/// from the Ethereum replies, a request for help with the help text, and
/// so on for every topic.
pub proof fn lemma_reply_from_own_table(lower: Seq<char>, reply: Seq<char>)
    ensures
        spec_topic(lower) == Topic::Greeting ==> (is_possible_reply(lower, reply) <==> is_listed(
            GREETING_REPLIES@,
            reply,
        )),
        spec_topic(lower) == Topic::Bitcoin ==> (is_possible_reply(lower, reply) <==> is_listed(
            BITCOIN_REPLIES@,
            reply,
        )),
        spec_topic(lower) == Topic::Ethereum ==> (is_possible_reply(lower, reply) <==> is_listed(
            ETHEREUM_REPLIES@,
            reply,
        )),
        spec_topic(lower) == Topic::WhichCoin ==> (is_possible_reply(lower, reply) <==> is_listed(
            WHICH_COIN_REPLIES@,
            reply,
        )),
        spec_topic(lower) == Topic::BestInvestment ==> (is_possible_reply(lower, reply)
            <==> is_listed(BEST_INVESTMENT_REPLIES@, reply)),
        spec_topic(lower) == Topic::Explain ==> (is_possible_reply(lower, reply) <==> is_listed(
            EXPLAIN_REPLIES@,
            reply,
        )),
        spec_topic(lower) == Topic::GettingStarted ==> (is_possible_reply(lower, reply)
            <==> is_listed(GETTING_STARTED_REPLIES@, reply)),
        spec_topic(lower) == Topic::Security ==> (is_possible_reply(lower, reply) <==> is_listed(
            SECURITY_REPLIES@,
            reply,
        )),
        spec_topic(lower) == Topic::Trends ==> (is_possible_reply(lower, reply) <==> is_listed(
            TRENDS_REPLIES@,
            reply,
        )),
        spec_topic(lower) == Topic::Market ==> (is_possible_reply(lower, reply) <==> is_listed(
            MARKET_REPLIES@,
            reply,
        )),
        spec_topic(lower) == Topic::Portfolio ==> (is_possible_reply(lower, reply) <==> is_listed(
            PORTFOLIO_REPLIES@,
            reply,
        )),
        spec_topic(lower) == Topic::Help ==> (is_possible_reply(lower, reply) <==> reply
            == HELP_REPLY@),
        spec_topic(lower) == Topic::Other ==> (is_possible_reply(lower, reply) <==> is_listed(
            DEFAULT_REPLIES@,
            reply,
        )),
{
    let t = spec_topic(lower);
    assert(is_possible_reply(lower, reply) == is_listed(spec_replies(t), reply));
    if t == Topic::Help {
        lemma_help_has_one_answer(lower, reply);
    }
}

} // verus!