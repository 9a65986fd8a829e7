use vstd::prelude::*;

use rand::Rng;

use crate::text::{chars_of, contains, contains_text};
use crate::user::User;

verus! {

/// What a chat message is about, decided by the first keyword group that
/// the lower-cased message contains.
#[derive(Clone, Copy, Debug, PartialEq, Eq, Structural)]
pub enum Topic {
    Greeting,
    Bitcoin,
    Ethereum,
    WhichCoin,
    BestInvestment,
    Explain,
    GettingStarted,
    Security,
    Trends,
    Market,
    Portfolio,
    Help,
    Other,
}

/// The replies of the greeting topic.
pub const GREETING_REPLIES: [&'static str; 3] = [
    "Olá! 👋 Como posso ajudar você com seus investimentos hoje?",
    "Oi! 😊 Estou aqui para ajudar com suas dúvidas sobre o mercado financeiro!",
    "Olá! Que bom ter você aqui. Vamos conversar sobre investimentos? 💰",
];

/// The replies of the bitcoin topic.
pub const BITCOIN_REPLIES: [&'static str; 3] = [
    "📊 **Bitcoin (BTC)** está cotado a **$67,432.50**. Tendência de alta com suporte em $65,000.",
    "🚀 Bitcoin cresceu **12.4%** nos últimos 30 dias. Ótimo momento para investir!",
    "💎 Dominância do Bitcoin está em **52.3%**. Continua sendo a criptomoeda mais sólida.",
];

/// The replies of the ethereum topic.
pub const ETHEREUM_REPLIES: [&'static str; 3] = [
    "🔷 **Ethereum (ETH)** está em **$3,456.78**. Alta atividade em DeFi e NFTs.",
    "📈 Ethereum subiu **8.2%** na última semana. Interesse institucional crescendo.",
    "⚡ Upgrade do Ethereum trouxe mais eficiência e escalabilidade para a rede.",
];

/// The replies of the which coin topic.
pub const WHICH_COIN_REPLIES: [&'static str; 2] = [
    "💰 **Recomendação para iniciantes:**\n\n• **Bitcoin (70%)** - Segurança e estabilidade\n• **Ethereum (20%)** - Potencial de crescimento\n• **Stablecoins (10%)** - USDC ou USDT\n\n📈 Comece com esses e diversifique gradualmente!",
    "📊 **Top 5 criptomoedas:**\n\n1. **Bitcoin (BTC)** - Ouro digital\n2. **Ethereum (ETH)** - Contratos inteligentes\n3. **BNB** - Exchange líder\n4. **Solana (SOL)** - Escalabilidade\n5. **XRP** - Pagamentos internacionais",
];

/// The replies of the best investment topic.
pub const BEST_INVESTMENT_REPLIES: [&'static str; 2] = [
    "💎 **Melhores investimentos em 2024:**\n\n1. **Bitcoin** - Maior rentabilidade\n2. **Ethereum** - Inovação e adoção\n3. **Ações tecnologia** - Apple, Microsoft\n4. **Fundos imobiliários** - Renda passiva\n5. **Tesouro Direto** - Segurança",
    "📊 **Ranking de rentabilidade:**\n\n🥇 **Bitcoin** +156%\n🥈 **Ethereum** +98%\n🥉 **S&P500** +28%\n4️⃣ **Ouro** +15%\n5️⃣ **Poupança** +6%",
];

/// The replies of the explain topic.
pub const EXPLAIN_REPLIES: [&'static str; 2] = [
    "📚 **O que é Investimento?**\n\nInvestir é alocar dinheiro em um ativo esperando retorno futuro.\n\n**Tipos:**\n1. **Renda Fixa** - Baixo risco\n2. **Renda Variável** - Médio/alto risco\n3. **Fundos** - Diversificação\n4. **Criptomoedas** - Ativos digitais\n\n🎯 Diversifique e tenha disciplina!",
    "💡 **Guia para iniciantes:**\n\n1️⃣ **Educação** - Estude antes\n2️⃣ **Objetivos** - Defina metas\n3️⃣ **Planejamento** - Crie estratégia\n4️⃣ **Diversificação** - Não coloque tudo em um lugar\n5️⃣ **Paciência** - Resultados vêm com o tempo",
];

/// The replies of the getting started topic.
pub const GETTING_STARTED_REPLIES: [&'static str; 2] = [
    "🚀 **Como começar a investir:**\n\n1️⃣ **Educação** - Leia livros, faça cursos\n2️⃣ **Defina objetivos** - Curto, médio e longo prazo\n3️⃣ **Escolha uma corretora** - Binance, Coinbase\n4️⃣ **Comece pequeno** - Valores baixos\n5️⃣ **Acompanhe** - Monitore regularmente\n\n📚 Livros: 'Pai Rico, Pai Pobre' e 'O Investidor Inteligente'",
    "🎯 **Roteiro para iniciantes:**\n\n**Mês 1-3:** Estude os fundamentos\n**Mês 4-6:** Abra conta em corretora\n**Mês 7-9:** Faça primeiros investimentos\n**Mês 10-12:** Aprenda com erros e ajuste",
];

/// The replies of the security topic.
pub const SECURITY_REPLIES: [&'static str; 2] = [
    "🛡️ **Dicas de segurança:**\n\n1. Use **autenticação 2FA**\n2. Nunca compartilhe **chaves privadas**\n3. Desconfie de **promessas de lucro fácil**\n4. Verifique a **reputação** da corretora\n5. Use **carteiras frias** para grandes quantias\n\n🔐 Sua segurança é prioridade!",
    "⚠️ **Sinais de alerta:**\n\n❌ Promessas de retorno garantido\n❌ Pressão para investir rápido\n❌ Contato não solicitado\n❌ Sites sem informações\n❌ Sem registro na CVM",
];

/// The replies of the trends topic.
pub const TRENDS_REPLIES: [&'static str; 1] = [
    "🔮 **Tendências para 2024:**\n\n1. **Bitcoin** - Previsão de US$ 100.000+\n2. **Ethereum** - Upgrade e escalabilidade\n3. **IA e Blockchain** - Integração crescente\n4. **Tokenização** - Ativos reais em blockchain\n5. **Regulamentação** - Maior clareza jurídica\n\n📈 Futuro promissor para criptomoedas!",
];

/// The replies of the market topic.
pub const MARKET_REPLIES: [&'static str; 3] = [
    "📊 Mercado em **alta consolidada**. Expectativa positiva para os próximos meses.",
    "🚀 Adoção institucional crescendo. Tendência de valorização no longo prazo.",
    "📈 Mercado apresenta volatilidade saudável. Ótimo para oportunidades de entrada.",
];

/// The replies of the portfolio topic.
pub const PORTFOLIO_REPLIES: [&'static str; 3] = [
    "📋 Sua carteira está bem diversificada. Monitore a performance diária.",
    "📅 Revise sua carteira **mensalmente** para ajustar investimentos.",
    "📈 Lembre-se do **longo prazo**. Volatilidade é normal no mercado.",
];

/// The replies of the default topic.
pub const DEFAULT_REPLIES: [&'static str; 4] = [
    "🤔 Entendi! Como posso ajudar você com seus investimentos hoje?",
    "📊 Interessante! Posso te dar mais informações sobre isso.",
    "💡 Ótima pergunta! Vou analisar isso para você.",
    "🤖 Fico feliz em ajudar com suas dúvidas sobre investimentos.",
];

/// The one reply to a request for help.
pub const HELP_REPLY: &'static str = "🤖 **Posso ajudar você com:**\n\n• 📊 **Bitcoin** - Preço e análises\n• 🔷 **Ethereum** - Preço e tendências\n• 💰 **Investimentos** - Dicas e estratégias\n• 📋 **Carteira** - Gestão de portfólio\n• 📈 **Mercado** - Tendências e análises\n• 🛡️ **Segurança** - Dicas de proteção\n• 🚀 **Como começar** - Primeiros passos\n• 💎 **Qual moeda investir** - Recomendações\n\nPergunte-me qualquer coisa! 🚀";

/// The topic of a lower-cased message: the keyword groups are tried in
/// this order, and the first one the message contains wins.
pub open spec fn spec_topic(m: Seq<char>) -> Topic {
    if contains_text(m, "oi"@) || contains_text(m, "olá"@) || contains_text(m, "ola"@) {
        Topic::Greeting
    } else if contains_text(m, "bitcoin"@) || contains_text(m, "btc"@) {
        Topic::Bitcoin
    } else if contains_text(m, "ethereum"@) || contains_text(m, "eth"@) {
        Topic::Ethereum
    } else if contains_text(m, "qual moeda"@) || (contains_text(m, "moeda"@) && contains_text(
        m,
        "investir"@,
    )) || contains_text(m, "qual cripto"@) {
        Topic::WhichCoin
    } else if contains_text(m, "melhor investimento"@) || contains_text(m, "melhor investir"@)
        || contains_text(m, "onde investir"@) {
        Topic::BestInvestment
    } else if contains_text(m, "explique sobre investimento"@) || contains_text(
        m,
        "o que é investimento"@,
    ) || contains_text(m, "como funciona investimento"@) {
        Topic::Explain
    } else if contains_text(m, "como começar"@) || contains_text(m, "começar a investir"@)
        || contains_text(m, "primeiros passos"@) {
        Topic::GettingStarted
    } else if contains_text(m, "segurança"@) || contains_text(m, "seguro"@) || contains_text(
        m,
        "proteger"@,
    ) {
        Topic::Security
    } else if contains_text(m, "tendencias 2024"@) || contains_text(m, "tendências 2024"@)
        || contains_text(m, "futuro"@) || contains_text(m, "previsão"@) {
        Topic::Trends
    } else if contains_text(m, "mercado"@) || contains_text(m, "tendencia"@) || contains_text(
        m,
        "tendência"@,
    ) {
        Topic::Market
    } else if contains_text(m, "carteira"@) || contains_text(m, "portfolio"@) || contains_text(
        m,
        "portfólio"@,
    ) {
        Topic::Portfolio
    } else if contains_text(m, "ajuda"@) || contains_text(m, "help"@) {
        Topic::Help
    } else {
        Topic::Other
    }
}

/// The replies the assistant chooses among for a topic.
pub open spec fn spec_replies(t: Topic) -> Seq<&'static str> {
    match t {
        Topic::Greeting => GREETING_REPLIES@,
        Topic::Bitcoin => BITCOIN_REPLIES@,
        Topic::Ethereum => ETHEREUM_REPLIES@,
        Topic::WhichCoin => WHICH_COIN_REPLIES@,
        Topic::BestInvestment => BEST_INVESTMENT_REPLIES@,
        Topic::Explain => EXPLAIN_REPLIES@,
        Topic::GettingStarted => GETTING_STARTED_REPLIES@,
        Topic::Security => SECURITY_REPLIES@,
        Topic::Trends => TRENDS_REPLIES@,
        Topic::Market => MARKET_REPLIES@,
        Topic::Portfolio => PORTFOLIO_REPLIES@,
        Topic::Help => seq![HELP_REPLY],
        Topic::Other => DEFAULT_REPLIES@,
    }
}

/// `reply` is one the assistant may give to the lower-cased message `lower`.
pub open spec fn is_possible_reply(lower: Seq<char>, reply: Seq<char>) -> bool {
    let replies = spec_replies(spec_topic(lower));
    exists|i: int| 0 <= i < replies.len() && replies[i]@ == reply
}

/// Whether the message contains the keyword.
fn mentions(message: &Vec<char>, keyword: &str) -> (r: bool)
    ensures
        r == contains_text(message@, keyword@),
{
    let keyword_chars = chars_of(keyword);
    contains(message, &keyword_chars)
}

/// The topic of a lower-cased message.
pub fn classify(lower: &str) -> (t: Topic)
    ensures
        t == spec_topic(lower@),
{
    let m = chars_of(lower);
    if mentions(&m, "oi") || mentions(&m, "olá") || mentions(&m, "ola") {
        Topic::Greeting
    } else if mentions(&m, "bitcoin") || mentions(&m, "btc") {
        Topic::Bitcoin
    } else if mentions(&m, "ethereum") || mentions(&m, "eth") {
        Topic::Ethereum
    } else if mentions(&m, "qual moeda") || (mentions(&m, "moeda") && mentions(&m, "investir"))
        || mentions(&m, "qual cripto") {
        Topic::WhichCoin
    } else if mentions(&m, "melhor investimento") || mentions(&m, "melhor investir") || mentions(
        &m,
        "onde investir",
    ) {
        Topic::BestInvestment
    } else if mentions(&m, "explique sobre investimento") || mentions(&m, "o que é investimento")
        || mentions(&m, "como funciona investimento") {
        Topic::Explain
    } else if mentions(&m, "como começar") || mentions(&m, "começar a investir") || mentions(
        &m,
        "primeiros passos",
    ) {
        Topic::GettingStarted
    } else if mentions(&m, "segurança") || mentions(&m, "seguro") || mentions(&m, "proteger") {
        Topic::Security
    } else if mentions(&m, "tendencias 2024") || mentions(&m, "tendências 2024") || mentions(
        &m,
        "futuro",
    ) || mentions(&m, "previsão") {
        Topic::Trends
    } else if mentions(&m, "mercado") || mentions(&m, "tendencia") || mentions(&m, "tendência") {
        Topic::Market
    } else if mentions(&m, "carteira") || mentions(&m, "portfolio") || mentions(&m, "portfólio") {
        Topic::Portfolio
    } else if mentions(&m, "ajuda") || mentions(&m, "help") {
        Topic::Help
    } else {
        Topic::Other
    }
}

/// The replies of a topic.
fn replies(t: Topic) -> (r: &'static [&'static str])
    ensures
        r@ == spec_replies(t),
{
    match t {
        Topic::Greeting => &GREETING_REPLIES,
        Topic::Bitcoin => &BITCOIN_REPLIES,
        Topic::Ethereum => &ETHEREUM_REPLIES,
        Topic::WhichCoin => &WHICH_COIN_REPLIES,
        Topic::BestInvestment => &BEST_INVESTMENT_REPLIES,
        Topic::Explain => &EXPLAIN_REPLIES,
        Topic::GettingStarted => &GETTING_STARTED_REPLIES,
        Topic::Security => &SECURITY_REPLIES,
        Topic::Trends => &TRENDS_REPLIES,
        Topic::Market => &MARKET_REPLIES,
        Topic::Portfolio => &PORTFOLIO_REPLIES,
        Topic::Help => &[HELP_REPLY],
        Topic::Other => &DEFAULT_REPLIES,
    }
}

/// The number of replies of a topic.
pub fn reply_count(t: Topic) -> (n: usize)
    ensures
        n == spec_replies(t).len(),
        n > 0,
{
    replies(t).len()
}

/// The reply of a topic at position `pick` of its list.
pub fn canned_reply(t: Topic, pick: usize) -> (reply: String)
    requires
        pick < spec_replies(t).len(),
    ensures
        reply@ == spec_replies(t)[pick as int]@,
{
    String::from_str(replies(t)[pick])
}

/// What `str::to_lowercase` makes of a text (Unicode lower-case mapping).
pub uninterp spec fn lowercase(text: Seq<char>) -> Seq<char>;

/// `str::to_lowercase`: the result is named by `lowercase` of the text.
#[verifier::external_body]
fn to_lowercase(text: &str) -> (lower: String)
    ensures
        lower@ == lowercase(text@),
{
    text.to_lowercase()
}

/// `rand::thread_rng().gen_range(0..len)`: some position below `len`,
/// drawn at random. `gen_range` panics on an empty range, so `len > 0`.
#[verifier::external_body]
fn random_index(len: usize) -> (i: usize)
    requires
        len > 0,
    ensures
        i < len,
{
    rand::thread_rng().gen_range(0..len)
}

/// The assistant's answer to a chat message: the message is lower-cased,
/// its topic decided, and one of the topic's replies drawn at random
/// (a request for help has a single reply and draws nothing).
pub fn generate_ai_response(message: &str) -> (reply: String)
    ensures
        is_possible_reply(lowercase(message@), reply@),
{
    let lower = to_lowercase(message);
    let topic = classify(lower.as_str());
    if topic == Topic::Help {
        return canned_reply(Topic::Help, 0);
    }
    let pick = random_index(reply_count(topic));
    canned_reply(topic, pick)
}

/// A chat request as the client sends it.
pub struct ChatRequest {
    pub message: String,
    pub user_id: i64,
}

/// The assistant's answer as the client receives it.
pub struct ChatResponse {
    pub message: String,
    pub timestamp: String,
}

/// One message of a conversation, by the user or by the assistant.
pub struct ChatMessage {
    pub role: String,
    pub content: String,
    pub timestamp: String,
}

/// The conversation of one user.
pub struct ChatHistory {
    pub user_id: i64,
    pub messages: Vec<ChatMessage>,
}

/// The data of the chat page.
pub struct ChatPage {
    pub user: User,
}

/// A chat message as plain text.
pub struct MessageView {
    pub role: Seq<char>,
    pub content: Seq<char>,
    pub timestamp: Seq<char>,
}

impl View for ChatMessage {
    type V = MessageView;

    open spec fn view(&self) -> MessageView {
        MessageView { role: self.role@, content: self.content@, timestamp: self.timestamp@ }
    }
}

/// The messages of a conversation as plain text.
pub open spec fn messages_view(messages: Seq<ChatMessage>) -> Seq<MessageView> {
    messages.map_values(|m: ChatMessage| m@)
}

/// The conversation of `user_id` in a map of conversations; empty when
/// the user has not chatted yet.
pub open spec fn conversation_of(
    conversations: Map<i64, Seq<MessageView>>,
    user_id: i64,
) -> Seq<MessageView> {
    if conversations.contains_key(user_id) {
        conversations[user_id]
    } else {
        Seq::empty()
    }
}

/// The two messages that one exchange adds to a conversation.
pub open spec fn exchange(
    user_message: Seq<char>,
    user_time: Seq<char>,
    reply: Seq<char>,
    reply_time: Seq<char>,
) -> Seq<MessageView> {
    seq![
        MessageView { role: "user"@, content: user_message, timestamp: user_time },
        MessageView { role: "assistant"@, content: reply, timestamp: reply_time },
    ]
}

/// The conversations of all users, kept in the order in which users
/// first wrote; each user has at most one conversation.
pub struct ChatStore {
    histories: Vec<ChatHistory>,
}

impl ChatStore {
    spec fn unique_users(histories: Seq<ChatHistory>) -> bool {
        forall|i: int, j: int|
            0 <= i < histories.len() && 0 <= j < histories.len() && i != j
                ==> #[trigger] histories[i].user_id != #[trigger] histories[j].user_id
    }

    /// No user has two conversations, and finitely many users have one.
    pub closed spec fn wf(&self) -> bool {
        &&& Self::unique_users(self.histories@)
        &&& Self::map_of(self.histories@).dom().finite()
    }

    spec fn has_user(histories: Seq<ChatHistory>, user_id: i64) -> bool {
        exists|i: int| 0 <= i < histories.len() && histories[i].user_id == user_id
    }

    spec fn index_of(histories: Seq<ChatHistory>, user_id: i64) -> int {
        choose|i: int| 0 <= i < histories.len() && histories[i].user_id == user_id
    }

    spec fn map_of(histories: Seq<ChatHistory>) -> Map<i64, Seq<MessageView>> {
        Map::new(
            |u: i64| Self::has_user(histories, u),
            |u: i64| messages_view(histories[Self::index_of(histories, u)].messages@),
        )
    }

    /// Each conversation, by user id.
    pub closed spec fn conversations(&self) -> Map<i64, Seq<MessageView>> {
        Self::map_of(self.histories@)
    }

    proof fn lemma_lookup(&self, i: int)
        requires
            Self::unique_users(self.histories@),
            0 <= i < self.histories@.len(),
        ensures
            self.conversations().contains_key(self.histories@[i].user_id),
            self.conversations()[self.histories@[i].user_id] == messages_view(
                self.histories@[i].messages@,
            ),
    {
        let u = self.histories@[i].user_id;
        assert(Self::has_user(self.histories@, u));
        let j = Self::index_of(self.histories@, u);
        assert(self.histories@[j].user_id == self.histories@[i].user_id);
    }

    /// A store without conversations.
    pub fn new() -> (store: Self)
        ensures
            store.wf(),
            store.conversations() == Map::<i64, Seq<MessageView>>::empty(),
            store.conversations().dom().finite(),
    {
        let store = ChatStore { histories: Vec::new() };
        assert(store.conversations() =~= Map::<i64, Seq<MessageView>>::empty());
        store
    }

    /// Where the conversation of `user_id` is kept, if it has one.
    fn position_of(&self, user_id: i64) -> (r: Option<usize>)
        ensures
            r matches Some(i) ==> i < self.histories@.len() && self.histories@[i as int].user_id
                == user_id,
            r is None ==> !Self::has_user(self.histories@, user_id),
    {
        let n = self.histories.len();
        for i in 0..n
            invariant
                n == self.histories@.len(),
                forall|j: int| 0 <= j < i ==> self.histories@[j].user_id != user_id,
        {
            if self.histories[i].user_id == user_id {
                return Some(i);
            }
        }
        None
    }
}

impl ChatMessage {
    /// A message with the given role, content and time.
    fn new(role: String, content: String, timestamp: String) -> (m: Self)
        ensures
            m@ == (MessageView { role: role@, content: content@, timestamp: timestamp@ }),
    {
        ChatMessage { role, content, timestamp }
    }

    fn copied(&self) -> (m: Self)
        ensures
            m@ == self@,
    {
        ChatMessage {
            role: self.role.clone(),
            content: self.content.clone(),
            timestamp: self.timestamp.clone(),
        }
    }
}

fn copy_messages(messages: &Vec<ChatMessage>) -> (r: Vec<ChatMessage>)
    ensures
        messages_view(r@) == messages_view(messages@),
{
    let mut r: Vec<ChatMessage> = Vec::new();
    let n = messages.len();
    for i in 0..n
        invariant
            n == messages@.len(),
            r@.len() == i,
            forall|j: int| 0 <= j < i ==> #[trigger] r@[j]@ == messages@[j]@,
    {
        r.push(messages[i].copied());
    }
    assert(messages_view(r@) =~= messages_view(messages@));
    r
}

impl ChatStore {
    /// The conversation of `user_id`; an empty one when the user has not
    /// chatted yet.
    pub fn history_for(&self, user_id: i64) -> (h: ChatHistory)
        requires
            self.wf(),
        ensures
            h.user_id == user_id,
            messages_view(h.messages@) == conversation_of(self.conversations(), user_id),
    {
        match self.position_of(user_id) {
            Some(i) => {
                proof {
                    self.lemma_lookup(i as int);
                }
                ChatHistory { user_id, messages: copy_messages(&self.histories[i].messages) }
            },
            None => {
                assert(!self.conversations().contains_key(user_id));
                let messages: Vec<ChatMessage> = Vec::new();
                assert(messages_view(messages@) =~= Seq::<MessageView>::empty());
                ChatHistory { user_id, messages }
            },
        }
    }

    /// Appends one exchange to the conversation of `user_id`: the user's
    /// message, then the assistant's reply; a user's first exchange opens
    /// the user's conversation.
    pub fn record_exchange(
        &mut self,
        user_id: i64,
        user_message: String,
        user_time: String,
        reply: String,
        reply_time: String,
    )
        requires
            old(self).wf(),
        ensures
            final(self).wf(),
            final(self).conversations().dom().finite(),
            message_total(final(self).conversations()) == message_total(old(self).conversations())
                + 2,
            final(self).conversations() == old(self).conversations().insert(
                user_id,
                conversation_of(old(self).conversations(), user_id) + exchange(
                    user_message@,
                    user_time@,
                    reply@,
                    reply_time@,
                ),
            ),
    {
        let ghost added = exchange(user_message@, user_time@, reply@, reply_time@);
        proof {
            crate::laws::lemma_exchange_adds_two_messages(
                old(self).conversations(),
                user_id,
                user_message@,
                user_time@,
                reply@,
                reply_time@,
            );
        }
        let asked = ChatMessage::new(String::from_str("user"), user_message, user_time);
        let answered = ChatMessage::new(String::from_str("assistant"), reply, reply_time);
        match self.position_of(user_id) {
            Some(i) => {
                proof {
                    self.lemma_lookup(i as int);
                }
                let ghost before = self.histories@;
                self.histories[i].messages.push(asked);
                self.histories[i].messages.push(answered);
                proof {
                    let after = self.histories@;
                    assert(forall|j: int| 0 <= j < after.len() ==> #[trigger] after[j].user_id == before[j].user_id);
                    assert(messages_view(after[i as int].messages@) =~= messages_view(before[i as int].messages@) + added);
                    self.lemma_lookup(i as int);
                    assert forall|u: i64| Self::has_user(after, u) <==> Self::has_user(before, u) by {
                        if Self::has_user(before, u) {
                            let j = Self::index_of(before, u);
                            assert(after[j].user_id == u);
                        }
                        if Self::has_user(after, u) {
                            let j = Self::index_of(after, u);
                            assert(before[j].user_id == u);
                        }
                    }
                    assert forall|u: i64| #[trigger] Self::has_user(after, u) && u != user_id implies
                        messages_view(after[Self::index_of(after, u)].messages@) == messages_view(before[Self::index_of(before, u)].messages@) by {
                        let j = Self::index_of(after, u);
                        let k = Self::index_of(before, u);
                        assert(after[k].user_id == u);
                        assert(j == k);
                        assert(j != i);
                    }
                    assert(self.conversations() =~= old(self).conversations().insert(
                        user_id,
                        conversation_of(old(self).conversations(), user_id) + added,
                    ));
                    assert(self.conversations().dom() =~= old(self).conversations().dom().insert(user_id));
                }
            },
            None => {
                let mut messages: Vec<ChatMessage> = Vec::new();
                messages.push(asked);
                messages.push(answered);
                let ghost before = self.histories@;
                self.histories.push(ChatHistory { user_id, messages });
                proof {
                    let after = self.histories@;
                    let n = before.len() as int;
                    assert(messages_view(after[n].messages@) =~= added);
                    self.lemma_lookup(n);
                    assert forall|u: i64| #[trigger] Self::has_user(after, u) <==> (Self::has_user(before, u) || u == user_id) by {
                        if Self::has_user(before, u) {
                            let j = Self::index_of(before, u);
                            assert(after[j].user_id == u);
                        }
                        if Self::has_user(after, u) && u != user_id {
                            let j = Self::index_of(after, u);
                            assert(j != n);
                            assert(before[j].user_id == u);
                        }
                    }
                    assert forall|u: i64| #[trigger] Self::has_user(after, u) && u != user_id implies
                        messages_view(after[Self::index_of(after, u)].messages@) == messages_view(before[Self::index_of(before, u)].messages@) by {
                        let j = Self::index_of(after, u);
                        let k = Self::index_of(before, u);
                        assert(after[k].user_id == u);
                        assert(j == k);
                    }
                    assert(conversation_of(old(self).conversations(), user_id) =~= Seq::<MessageView>::empty());
                    assert(self.conversations() =~= old(self).conversations().insert(
                        user_id,
                        conversation_of(old(self).conversations(), user_id) + added,
                    ));
                    assert(self.conversations().dom() =~= old(self).conversations().dom().insert(user_id));
                }
            },
        }
    }
}

/// The characters of `s` from `from` up to `to` are decimal digits.
pub open spec fn digits_between(s: Seq<char>, from: int, to: int) -> bool {
    forall|i: int| from <= i < to ==> '0' <= #[trigger] s[i] <= '9'
}

/// `s` is laid out as `chrono` writes an RFC 3339 time, with a year of
/// `year_len` characters and a fraction of seconds of `frac_len` characters:
/// `YYYY-MM-DDTHH:MM:SS`, then nothing or `.` with 3, 6 or 9 digits, then
/// the offset `+HH:MM` or `-HH:MM`. A year outside 0 to 9999 is written
/// with its sign and at least four digits.
pub open spec fn rfc3339_layout(s: Seq<char>, year_len: int, frac_len: int) -> bool {
    let y = year_len;
    let o = y + 15 + frac_len;
    &&& s.len() == o + 6
    &&& (y == 4 && digits_between(s, 0, 4)) || (y >= 5 && (s[0] == '+' || s[0] == '-')
        && digits_between(s, 1, y))
    &&& s[y] == '-' && digits_between(s, y + 1, y + 3)
    &&& s[y + 3] == '-' && digits_between(s, y + 4, y + 6)
    &&& s[y + 6] == 'T' && digits_between(s, y + 7, y + 9)
    &&& s[y + 9] == ':' && digits_between(s, y + 10, y + 12)
    &&& s[y + 12] == ':' && digits_between(s, y + 13, y + 15)
    &&& frac_len == 0 || ((frac_len == 4 || frac_len == 7 || frac_len == 10) && s[y + 15] == '.'
        && digits_between(s, y + 16, o))
    &&& (s[o] == '+' || s[o] == '-') && digits_between(s, o + 1, o + 3)
    &&& s[o + 3] == ':' && digits_between(s, o + 4, o + 6)
}

/// `s` is a time as `DateTime::to_rfc3339` writes it.
pub open spec fn is_rfc3339_time(s: Seq<char>) -> bool {
    exists|year_len: int, frac_len: int| #[trigger] rfc3339_layout(s, year_len, frac_len)
}

/// `chrono::Local::now().to_rfc3339()`: the current local time as an
/// RFC 3339 text. Which time it is is not stated (it is read from the
/// clock); what is stated is the layout in which `to_rfc3339` writes every
/// time (`write_rfc3339` with whole, milli-, micro- or nanoseconds and an
/// offset in hours and minutes).
#[verifier::external_body]
fn now_rfc3339() -> (now: String)
    ensures
        is_rfc3339_time(now@),
{
    chrono::Local::now().to_rfc3339()
}

/// One step of counting messages: add the length of a user's conversation.
pub open spec fn count_step(conversations: Map<i64, Seq<MessageView>>) -> spec_fn(nat, i64) -> nat {
    |total: nat, user_id: i64| total + conversations[user_id].len()
}

/// The number of messages across all conversations.
pub open spec fn message_total(conversations: Map<i64, Seq<MessageView>>) -> nat {
    conversations.dom().fold(0nat, count_step(conversations))
}

/// The conversations after `user_id` sent `message` and got `reply`, at
/// the times `user_time` and `reply_time`.
pub open spec fn after_exchange(
    conversations: Map<i64, Seq<MessageView>>,
    user_id: i64,
    message: Seq<char>,
    user_time: Seq<char>,
    reply: Seq<char>,
    reply_time: Seq<char>,
) -> Map<i64, Seq<MessageView>> {
    conversations.insert(
        user_id,
        conversation_of(conversations, user_id) + exchange(message, user_time, reply, reply_time),
    )
}

/// Answers a chat message of `user`: the assistant's reply is generated,
/// and the message and the reply, each stamped with the time, are appended
/// to the user's conversation. The request's own `user_id` is not used.
pub fn chat_message(store: &mut ChatStore, user: &User, request: &ChatRequest) -> (response:
    ChatResponse)
    requires
        old(store).wf(),
    ensures
        final(store).wf(),
        final(store).conversations().dom().finite(),
        message_total(final(store).conversations()) == message_total(old(store).conversations())
            + 2,
        is_possible_reply(lowercase(request.message@), response.message@),
        is_rfc3339_time(response.timestamp@),
        exists|user_time: Seq<char>, reply_time: Seq<char>|
            {
                &&& is_rfc3339_time(user_time)
                &&& is_rfc3339_time(reply_time)
                &&& final(store).conversations() == #[trigger] after_exchange(
                    old(store).conversations(),
                    user@.id,
                    request.message@,
                    user_time,
                    response.message@,
                    reply_time,
                )
            },
{
    let user_message = request.message.clone();
    let ai_response = generate_ai_response(request.message.as_str());
    let timestamp = now_rfc3339();
    let reply_time = now_rfc3339();
    let ghost (t1, t2) = (timestamp@, reply_time@);
    store.record_exchange(user.id(), user_message, timestamp, ai_response.clone(), reply_time);
    let response = ChatResponse { message: ai_response, timestamp: now_rfc3339() };
    proof {
        crate::laws::lemma_exchange_adds_two_messages(
            old(store).conversations(),
            user@.id,
            request.message@,
            t1,
            response.message@,
            t2,
        );
    }
    assert(store.conversations() == after_exchange(
        old(store).conversations(),
        user@.id,
        request.message@,
        t1,
        response.message@,
        t2,
    ));
    response
}

/// The conversation of `user_id`, for any signed-in user who asks.
pub fn chat_history(store: &ChatStore, user_id: i64) -> (h: ChatHistory)
    requires
        store.wf(),
    ensures
        h.user_id == user_id,
        messages_view(h.messages@) == conversation_of(store.conversations(), user_id),
{
    store.history_for(user_id)
}

} // verus!