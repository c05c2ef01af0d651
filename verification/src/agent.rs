//! The user agent that a task presents: made up at random, for variety.

use vstd::prelude::*;
use vstd::string::StringExecFns;
use crate::chance::{random_between, random_choice};
use crate::text::same_text;

verus! {

/// The character for the digit `d`.
pub open spec fn digit_char(d: nat) -> char {
    if d == 0 {
        '0'
    } else if d == 1 {
        '1'
    } else if d == 2 {
        '2'
    } else if d == 3 {
        '3'
    } else if d == 4 {
        '4'
    } else if d == 5 {
        '5'
    } else if d == 6 {
        '6'
    } else if d == 7 {
        '7'
    } else if d == 8 {
        '8'
    } else {
        '9'
    }
}

/// The decimal numeral of `n`, without leading zeros.
pub open spec fn decimal(n: nat) -> Seq<char>
    decreases n,
{
    if n < 10 {
        seq![digit_char(n)]
    } else {
        decimal(n / 10).push(digit_char(n % 10))
    }
}

fn digit_text(d: u64) -> (text: &'static str)
    requires
        d < 10,
    ensures
        text@ == seq![digit_char(d as nat)],
{
    proof {
        reveal_strlit("0");
        reveal_strlit("1");
        reveal_strlit("2");
        reveal_strlit("3");
        reveal_strlit("4");
        reveal_strlit("5");
        reveal_strlit("6");
        reveal_strlit("7");
        reveal_strlit("8");
        reveal_strlit("9");
    }
    let text = if d == 0 {
        "0"
    } else if d == 1 {
        "1"
    } else if d == 2 {
        "2"
    } else if d == 3 {
        "3"
    } else if d == 4 {
        "4"
    } else if d == 5 {
        "5"
    } else if d == 6 {
        "6"
    } else if d == 7 {
        "7"
    } else if d == 8 {
        "8"
    } else {
        "9"
    };
    assert(text@ =~= seq![digit_char(d as nat)]);
    text
}

/// Writes `n` as a decimal numeral.
pub fn decimal_text(n: u64) -> (text: String)
    ensures
        text@ == decimal(n as nat),
    decreases n,
{
    if n < 10 {
        String::from_str(digit_text(n))
    } else {
        let mut text = decimal_text(n / 10);
        text.append(digit_text(n % 10));
        assert(text@ =~= decimal(n as nat));
        text
    }
}

/// The platforms that a user agent may name.
pub open spec fn platforms() -> Seq<Seq<char>> {
    seq!["Windows NT 10.0"@, "Macintosh; Intel Mac OS X 10_14_6"@, "X11; Linux x86_64"@]
}

/// A browser together with the version drawn for it.
struct BrowserPick {
    name: &'static str,
    version: u64,
}

/// Whether `name` may claim `version`: the browsers and, for each, the
/// versions from its first up to but not including its bound.
pub open spec fn is_browser_version(name: Seq<char>, version: nat) -> bool {
    ||| name == "Chrome"@ && 100 <= version < 115
    ||| name == "Firefox"@ && 100 <= version < 115
    ||| name == "Safari"@ && 10 <= version < 15
    ||| name == "Opera"@ && 70 <= version < 81
    ||| name == "Edge"@ && 80 <= version < 91
}

/// The engine token that goes with the browser `name`.
pub open spec fn engine_token(name: Seq<char>) -> Seq<char> {
    if name == "Firefox"@ {
        "Gecko/20100101"@
    } else {
        Seq::empty()
    }
}

/// The user agent for these five choices.
pub open spec fn user_agent_text(
    platform: Seq<char>,
    chrome_major: nat,
    chrome_build: nat,
    browser: Seq<char>,
    version: nat,
) -> Seq<char> {
    "Mozilla/5.0 ("@ + platform + ") AppleWebKit/537.36 (KHTML, like Gecko) Chrome/"@ + decimal(
        chrome_major,
    ) + ".0."@ + decimal(chrome_build) + " "@ + engine_token(browser) + " "@ + browser + "/"@
        + decimal(version)
}

/// Whether `text` is a user agent that `generate_user_agent` can make:
/// one of the platforms, a Chrome token with a major version from 80 to
/// 100 and a build below 1000, and one of the browsers with a version
/// from its range.
pub open spec fn is_user_agent(text: Seq<char>) -> bool {
    exists|
        platform: Seq<char>,
        chrome_major: nat,
        chrome_build: nat,
        browser: Seq<char>,
        version: nat,
    |
        platforms().contains(platform) && 80 <= chrome_major < 101 && chrome_build < 1000
            && is_browser_version(browser, version) && text == #[trigger] user_agent_text(
            platform,
            chrome_major,
            chrome_build,
            browser,
            version,
        )
}

/// Puts a user agent together from the five choices that make it up.
pub fn compose_user_agent(
    platform: &str,
    chrome_major: u64,
    chrome_build: u64,
    browser: &str,
    version: u64,
) -> (agent: String)
    ensures
        agent@ == user_agent_text(
            platform@,
            chrome_major as nat,
            chrome_build as nat,
            browser@,
            version as nat,
        ),
{
    let gecko = if same_text(browser, "Firefox") {
        "Gecko/20100101"
    } else {
        ""
    };
    proof {
        reveal_strlit("");
        assert(""@ =~= Seq::<char>::empty());
    }
    let mut agent = String::from_str("Mozilla/5.0 (");
    agent.append(platform);
    agent.append(") AppleWebKit/537.36 (KHTML, like Gecko) Chrome/");
    agent.append(decimal_text(chrome_major).as_str());
    agent.append(".0.");
    agent.append(decimal_text(chrome_build).as_str());
    agent.append(" ");
    agent.append(gecko);
    agent.append(" ");
    agent.append(browser);
    agent.append("/");
    agent.append(decimal_text(version).as_str());
    agent
}

/// Makes up a user agent: a platform and a browser picked at random, and
/// version numbers drawn from the ranges that look plausible for each.
pub fn generate_user_agent() -> (agent: String)
    ensures
        is_user_agent(agent@),
{
    let browsers: [BrowserPick; 5] = [
        BrowserPick { name: "Chrome", version: random_between(100, 115) },
        BrowserPick { name: "Firefox", version: random_between(100, 115) },
        BrowserPick { name: "Safari", version: random_between(10, 15) },
        BrowserPick { name: "Opera", version: random_between(70, 81) },
        BrowserPick { name: "Edge", version: random_between(80, 91) },
    ];
    let known: [&'static str; 3] = [
        "Windows NT 10.0",
        "Macintosh; Intel Mac OS X 10_14_6",
        "X11; Linux x86_64",
    ];
    let platform = match random_choice(known.as_slice()) {
        Some(platform) => *platform,
        None => known[0],
    };
    let (browser, version) = match random_choice(browsers.as_slice()) {
        Some(pick) => (pick.name, pick.version),
        None => (browsers[0].name, browsers[0].version),
    };
    let chrome_major = random_between(80, 101);
    let chrome_build = random_between(0, 1000);
    let agent = compose_user_agent(platform, chrome_major, chrome_build, browser, version);
    proof {
        assert(platforms().contains(platform@)) by {
            let i = choose|i: int| 0 <= i < 3 && known@[i] == platform;
            assert(platforms()[i] == platform@);
        }
        assert(is_browser_version(browser@, version as nat)) by {
            let i = choose|i: int|
                0 <= i < 5 && browsers@[i].name == browser && browsers@[i].version == version;
        }
    }
    agent
}

} // verus!
