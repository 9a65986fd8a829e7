use vstd::prelude::*;

use crate::user::User;

verus! {

/// The text of the digits 0 to 9.
pub const DIGITS: [&'static str; 10] = ["0", "1", "2", "3", "4", "5", "6", "7", "8", "9"];

/// The decimal digits of a natural number, most significant first,
/// without leading zeros ("0" for zero).
pub open spec fn digits_text(n: nat) -> Seq<char>
    decreases n,
{
    if n < 10 {
        DIGITS@[n as int]@
    } else {
        digits_text(n / 10) + DIGITS@[(n % 10) as int]@
    }
}

/// An integer in decimal, as `i64::to_string` writes it: a minus sign for
/// a negative number, then the digits of its magnitude.
pub open spec fn decimal_text(n: int) -> Seq<char> {
    if n < 0 {
        "-"@ + digits_text((-n) as nat)
    } else {
        digits_text(n as nat)
    }
}

fn push_digits(text: &mut String, n: u64)
    ensures
        final(text)@ == old(text)@ + digits_text(n as nat),
    decreases n,
{
    if n >= 10 {
        push_digits(text, n / 10);
    }
    text.append(DIGITS[(n % 10) as usize]);
    proof {
        assert(old(text)@ + digits_text(n as nat) =~= if n < 10 {
            old(text)@ + DIGITS@[n as int]@
        } else {
            old(text)@ + digits_text((n / 10) as nat) + DIGITS@[(n % 10) as int]@
        });
    }
}

/// An integer written in decimal.
pub fn decimal(n: i64) -> (text: String)
    ensures
        text@ == decimal_text(n as int),
{
    let mut text = String::new();
    if n < 0 {
        text.append("-");
        let magnitude: u64 = ((-(n + 1)) as u64) + 1;
        push_digits(&mut text, magnitude);
    } else {
        push_digits(&mut text, n as u64);
    }
    text
}

/// The welcome page, up to the user name.
pub const INDEX_HEAD: &'static str = "
                <!DOCTYPE html>
                <html>
                <head>
                    <title>Dashboard - Wallet Live</title>
                    <script src=\"https://cdn.tailwindcss.com\"></script>
                    <link href=\"https://fonts.googleapis.com/css2?family=Inter:wght@400;500;600;700;800&display=swap\" rel=\"stylesheet\">
                    <style>
                        body { font-family: 'Inter', sans-serif; background: linear-gradient(135deg, #0f172a 0%, #1e1b4b 100%); }
                        .glass-card { background: rgba(255,255,255,0.05); backdrop-filter: blur(10px); border: 1px solid rgba(255,255,255,0.1); }
                    </style>
                </head>
                <body class=\"min-h-screen flex items-center justify-center p-4\">
                    <div class=\"glass-card rounded-2xl p-8 shadow-2xl max-w-md w-full\">
                        <div class=\"text-center\">
                            <div class=\"inline-flex items-center justify-center w-16 h-16 bg-gradient-to-br from-cyan-500 to-blue-500 rounded-2xl shadow-lg mb-4\">
                                <svg class=\"w-8 h-8 text-white\" fill=\"none\" stroke=\"currentColor\" viewBox=\"0 0 24 24\">
                                    <path stroke-linecap=\"round\" stroke-linejoin=\"round\" stroke-width=\"2\" d=\"M12 8c-1.657 0-3 .895-3 2s1.343 2 3 2 3 .895 3 2-1.343 2-3 2m0-8c1.11 0 2.08.402 2.599 1M12 8V7m0 1v8m0 0v1m0-1c-1.11 0-2.08-.402-2.599-1M21 12a9 9 0 11-18 0 9 9 0 0118 0z\"></path>
                                </svg>
                            </div>
                            <h1 class=\"text-3xl font-bold mb-2 text-white\">Welcome, ";

/// The welcome page, between the user name and the user id.
pub const INDEX_MIDDLE: &'static str = "!</h1>
                            <p class=\"text-gray-400 text-sm mb-6\">Your user ID: <strong class=\"text-cyan-400\">";

/// The welcome page, after the user id.
pub const INDEX_TAIL: &'static str = "</strong></p>
                        </div>
                        
                        <div class=\"space-y-3\">
                            <a href=\"/assets\" class=\"block w-full text-center bg-cyan-500/20 border border-cyan-400/30 text-cyan-400 px-4 py-2.5 rounded-xl hover:bg-cyan-500/30 hover:shadow-[0_0_20px_rgba(34,211,238,0.3)] transition-all duration-300\">
                                📊 View Assets
                            </a>
                            <a href=\"/assets/new\" class=\"block w-full text-center bg-emerald-500/20 border border-emerald-400/30 text-emerald-400 px-4 py-2.5 rounded-xl hover:bg-emerald-500/30 hover:shadow-[0_0_20px_rgba(52,211,153,0.3)] transition-all duration-300\">
                                ➕ New Asset
                            </a>
                            <a href=\"/dashboard\" class=\"block w-full text-center bg-purple-500/20 border border-purple-400/30 text-purple-400 px-4 py-2.5 rounded-xl hover:bg-purple-500/30 hover:shadow-[0_0_20px_rgba(168,85,247,0.3)] transition-all duration-300\">
                                📈 Dashboard
                            </a>
                            <a href=\"/logout\" class=\"block w-full text-center bg-red-500/20 border border-red-500/30 text-red-400 px-4 py-2.5 rounded-xl hover:bg-red-500/30 transition-all duration-300\">
                                🚪 Logout
                            </a>
                        </div>
                    </div>
                </body>
                </html>
                ";

/// The welcome page of a user with this name and id.
pub open spec fn welcome_page_text(username: Seq<char>, id: i64) -> Seq<char> {
    INDEX_HEAD@ + username + INDEX_MIDDLE@ + decimal_text(id as int) + INDEX_TAIL@
}

/// What the site's root answers.
pub enum IndexResponse {
    /// This HTML page.
    Page(String),
    /// A redirect to this path.
    Redirect(String),
}

/// The site's root: the welcome page of a signed-in user, with the user's
/// name and id written into it (as they are, without escaping); anyone
/// else is sent to the login page.
pub fn index(user: Option<&User>) -> (r: IndexResponse)
    ensures
        user matches Some(u) ==> (r matches IndexResponse::Page(html) && html@ == welcome_page_text(
            u@.username,
            u@.id,
        )),
        user is None ==> (r matches IndexResponse::Redirect(to) && to@ == "/login"@),
{
    match user {
        Some(user) => {
            let mut html = String::from_str(INDEX_HEAD);
            html.append(user.username().as_str());
            html.append(INDEX_MIDDLE);
            let id_text = decimal(user.id());
            html.append(id_text.as_str());
            html.append(INDEX_TAIL);
            IndexResponse::Page(html)
        },
        None => IndexResponse::Redirect(String::from_str("/login")),
    }
}

} // verus!
