use wallet_live::chat::{
    canned_reply, chat_history, chat_message, classify, generate_ai_response, reply_count,
    ChatRequest, ChatStore, Topic, BITCOIN_REPLIES, DEFAULT_REPLIES, GREETING_REPLIES, HELP_REPLY,
    TRENDS_REPLIES,
};
use wallet_live::user::User;

#[test]
fn classify_follows_keyword_order() {
    assert_eq!(classify("oi, tudo bem?"), Topic::Greeting);
    assert_eq!(classify("quanto vale o btc"), Topic::Bitcoin);
    assert_eq!(classify("btc"), Topic::Bitcoin);
    assert_eq!(classify("e o ethereum?"), Topic::Ethereum);
    assert_eq!(classify("qual moeda comprar"), Topic::WhichCoin);
    assert_eq!(classify("uma moeda para investir"), Topic::WhichCoin);
    assert_eq!(classify("qual cripto"), Topic::WhichCoin);
    assert_eq!(classify("melhor investimento"), Topic::BestInvestment);
    assert_eq!(classify("como funciona investimento"), Topic::Explain);
    assert_eq!(classify("primeiros passos"), Topic::GettingStarted);
    assert_eq!(classify("segurança"), Topic::Security);
    assert_eq!(classify("previsão"), Topic::Trends);
    assert_eq!(classify("mercado"), Topic::Market);
    assert_eq!(classify("minha carteira"), Topic::Portfolio);
    assert_eq!(classify("help"), Topic::Help);
    assert_eq!(classify("xyz"), Topic::Other);
    assert_eq!(classify(""), Topic::Other);
}

#[test]
fn earlier_keyword_group_wins() {
    // "ajuda" asks for help, but "btc" is checked first.
    assert_eq!(classify("ajuda com btc"), Topic::Bitcoin);
    // "bitcoin" contains "oi", so it is taken for a greeting.
    assert_eq!(classify("quanto vale o bitcoin"), Topic::Greeting);
    // "depois" contains "oi", so it is taken for a greeting.
    assert_eq!(classify("depois falamos de mercado"), Topic::Greeting);
    // "moeda" alone is not enough.
    assert_eq!(classify("moeda"), Topic::Other);
    // classification expects lower-case text
    assert_eq!(classify("BITCOIN"), Topic::Other);
}

#[test]
fn reply_tables() {
    assert_eq!(reply_count(Topic::Greeting), 3);
    assert_eq!(reply_count(Topic::WhichCoin), 2);
    assert_eq!(reply_count(Topic::Trends), 1);
    assert_eq!(reply_count(Topic::Help), 1);
    assert_eq!(reply_count(Topic::Other), 4);
    assert_eq!(canned_reply(Topic::Bitcoin, 2), BITCOIN_REPLIES[2]);
    assert_eq!(canned_reply(Topic::Help, 0), HELP_REPLY);
    assert_eq!(
        canned_reply(Topic::Other, 0),
        "🤔 Entendi! Como posso ajudar você com seus investimentos hoje?"
    );
}

#[test]
fn generated_reply_is_lowercased_and_from_topic() {
    for _ in 0..20 {
        let r = generate_ai_response("OLÁ, TUDO BEM?");
        assert!(GREETING_REPLIES.contains(&r.as_str()));
        let r = generate_ai_response("Fale do BTC");
        assert!(BITCOIN_REPLIES.contains(&r.as_str()));
        let r = generate_ai_response("Nada a declarar");
        assert!(DEFAULT_REPLIES.contains(&r.as_str()));
    }
    assert_eq!(generate_ai_response("HELP"), HELP_REPLY);
    assert_eq!(generate_ai_response("Futuro?"), TRENDS_REPLIES[0]);
}

#[test]
fn history_of_new_user_is_empty() {
    let store = ChatStore::new();
    let h = store.history_for(7);
    assert_eq!(h.user_id, 7);
    assert!(h.messages.is_empty());
}

#[test]
fn exchange_then_read() {
    let mut store = ChatStore::new();
    store.record_exchange(
        1,
        "oi".to_string(),
        "t1".to_string(),
        "ola".to_string(),
        "t2".to_string(),
    );
    store.record_exchange(
        2,
        "x".to_string(),
        "t3".to_string(),
        "y".to_string(),
        "t4".to_string(),
    );
    store.record_exchange(
        1,
        "mais".to_string(),
        "t5".to_string(),
        "resposta".to_string(),
        "t6".to_string(),
    );
    let h = store.history_for(1);
    assert_eq!(h.user_id, 1);
    let seen: Vec<(&str, &str, &str)> = h
        .messages
        .iter()
        .map(|m| (m.role.as_str(), m.content.as_str(), m.timestamp.as_str()))
        .collect();
    assert_eq!(
        seen,
        vec![
            ("user", "oi", "t1"),
            ("assistant", "ola", "t2"),
            ("user", "mais", "t5"),
            ("assistant", "resposta", "t6"),
        ]
    );
    let h2 = store.history_for(2);
    assert_eq!(h2.messages.len(), 2);
    assert_eq!(h2.messages[0].content, "x");
    assert_eq!(h2.messages[1].content, "y");
}

#[test]
fn chat_message_records_both_sides() {
    let mut store = ChatStore::new();
    let user = User::new(5, "ana".to_string());
    let request = ChatRequest { message: "E o BTC?".to_string(), user_id: 99 };
    let response = chat_message(&mut store, &user, &request);
    assert!(BITCOIN_REPLIES.contains(&response.message.as_str()));
    assert!(!response.timestamp.is_empty());
    // the exchange is kept under the signed-in user, not the request's id
    assert!(chat_history(&store, 99).messages.is_empty());
    let h = chat_history(&store, 5);
    assert_eq!(h.messages.len(), 2);
    assert_eq!(h.messages[0].role, "user");
    assert_eq!(h.messages[0].content, "E o BTC?");
    assert_eq!(h.messages[1].role, "assistant");
    assert_eq!(h.messages[1].content, response.message);
}

#[test]
fn chat_times_are_rfc3339() {
    let mut store = ChatStore::new();
    let user = User::new(3, "ivo".to_string());
    let request = ChatRequest { message: "mercado".to_string(), user_id: 3 };
    let response = chat_message(&mut store, &user, &request);
    assert!(chrono::DateTime::parse_from_rfc3339(&response.timestamp).is_ok());
    for m in chat_history(&store, 3).messages {
        assert!(chrono::DateTime::parse_from_rfc3339(&m.timestamp).is_ok());
        assert!(!m.timestamp.is_empty());
    }
}
