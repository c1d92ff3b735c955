//! Configuration of the command-line tool: how answers and configured values
//! become a configuration, and what the tool derives from one (the
//! environment of `docker compose`, the secret files, the status report).

use vstd::prelude::*;
use crate::ids::hex_digit;
use crate::issues::clone_opt_string;
use crate::json::opt_view;

verus! {

/// The port the server listens on unless configured otherwise.
pub const DEFAULT_PORT: u16 = 4080;

/// The settings of a Switchboard installation.
#[derive(Debug)]
pub struct SwitchboardConfig {
    pub port: u16,
    pub klondike_url: String,
    pub slack_token: Option<String>,
    pub github_token: Option<String>,
}

/// A configuration as plain values.
pub struct SwitchboardConfigView {
    pub port: u16,
    pub klondike_url: Seq<char>,
    pub slack_token: Option<Seq<char>>,
    pub github_token: Option<Seq<char>>,
}

impl View for SwitchboardConfig {
    type V = SwitchboardConfigView;

    open spec fn view(&self) -> SwitchboardConfigView {
        SwitchboardConfigView {
            port: self.port,
            klondike_url: self.klondike_url@,
            slack_token: opt_view(self.slack_token),
            github_token: opt_view(self.github_token),
        }
    }
}

/// The Klondike address used unless configured otherwise.
pub open spec fn default_klondike_url_text() -> Seq<char> {
    "http://localhost:3000"@
}

/// An answer left empty means "no value".
pub open spec fn answer(s: Seq<char>) -> Option<Seq<char>> {
    if s.len() == 0 {
        None
    } else {
        Some(s)
    }
}

/// The decimal text of `n`, without leading zeros.
pub open spec fn decimal_text(n: nat) -> Seq<char>
    decreases n,
{
    if n < 10 {
        seq![hex_digit(n as u128)]
    } else {
        decimal_text(n / 10) + seq![hex_digit((n % 10) as u128)]
    }
}

/// Pairs of strings by their characters.
pub open spec fn pair_views(v: Seq<(String, String)>) -> Seq<(Seq<char>, Seq<char>)> {
    v.map_values(|p: (String, String)| (p.0@, p.1@))
}

/// Strings by their characters.
pub open spec fn line_views(v: Seq<String>) -> Seq<Seq<char>> {
    v.map_values(|s: String| s@)
}

/// The pair `(name, value)` where a value is present, nothing otherwise.
pub open spec fn optional_pair(name: Seq<char>, value: Option<Seq<char>>) -> Seq<(Seq<char>, Seq<char>)> {
    match value {
        Some(v) => seq![(name, v)],
        None => Seq::empty(),
    }
}

/// The environment that `docker compose up` runs with: the port and the
/// Klondike address always, and each token that is set.
pub open spec fn compose_env_of(c: SwitchboardConfigView) -> Seq<(Seq<char>, Seq<char>)> {
    seq![("SWITCHBOARD_PORT"@, decimal_text(c.port as nat)), ("KLONDIKE_URL"@, c.klondike_url)]
        + optional_pair("SLACK_TOKEN"@, c.slack_token) + optional_pair("GITHUB_TOKEN"@, c.github_token)
}

/// The files written to the secrets directory: one per token that is set,
/// named after the token and holding it.
pub open spec fn secret_files_of(c: SwitchboardConfigView) -> Seq<(Seq<char>, Seq<char>)> {
    optional_pair("slack_token"@, c.slack_token) + optional_pair("github_token"@, c.github_token)
}

/// `set` or `not set`.
pub open spec fn set_text(value: Option<Seq<char>>) -> Seq<char> {
    if value is Some {
        "set"@
    } else {
        "not set"@
    }
}

/// The lines the status command prints about a configuration, the last one
/// empty. Tokens are never shown, only whether they are set.
pub open spec fn status_lines_of(c: SwitchboardConfigView) -> Seq<Seq<char>> {
    seq![
        "Port:         "@ + decimal_text(c.port as nat),
        "Klondike URL: "@ + c.klondike_url,
        "Slack token:  "@ + set_text(c.slack_token),
        "GitHub token: "@ + set_text(c.github_token),
        Seq::empty(),
    ]
}

/// The lines the status command prints when the configuration could not be
/// loaded, the last one empty.
pub open spec fn status_error_lines_of(err: Seq<char>) -> Seq<Seq<char>> {
    seq!["Could not load config: "@ + err, Seq::empty()]
}

/// The decimal text of `n`.
pub fn decimal(n: u16) -> (r: String)
    ensures
        r@ == decimal_text(n as nat),
    decreases n,
{
    if n < 10 {
        digit_text(n)
    } else {
        let digit = digit_text(n % 10);
        decimal(n / 10).concat(digit.as_str())
    }
}

/// The one-character text of a decimal digit.
fn digit_text(d: u16) -> (r: String)
    requires
        d < 10,
    ensures
        r@ == seq![hex_digit(d as u128)],
{
    let s = match d {
        0 => "0",
        1 => "1",
        2 => "2",
        3 => "3",
        4 => "4",
        5 => "5",
        6 => "6",
        7 => "7",
        8 => "8",
        _ => "9",
    };
    proof {
        reveal_strlit("0");
        reveal_strlit("1");
        reveal_strlit("2");
        reveal_strlit("3");
        reveal_strlit("4");
        reveal_strlit("5");
        reveal_strlit("6");
        reveal_strlit("7");
        reveal_strlit("8");
        reveal_strlit("9");
        assert(s@ =~= seq![hex_digit(d as u128)]);
    }
    s.to_owned()
}

/// `None` for an empty answer, the answer otherwise.
fn answer_of(s: String) -> (r: Option<String>)
    ensures
        opt_view(r) == answer(s@),
        r matches Some(t) ==> t == s,
{
    if s.as_str().is_empty() {
        None
    } else {
        Some(s)
    }
}

/// Appends `(name, value)` to `out` where the value is present.
fn pair_if(name: &str, value: &Option<String>, out: &mut Vec<(String, String)>)
    ensures
        pair_views(final(out)@) == pair_views(old(out)@) + optional_pair(name@, opt_view(*value)),
{
    match value {
        Some(v) => {
            out.push((name.to_owned(), v.clone()));
            assert(pair_views(out@) =~= pair_views(old(out)@) + optional_pair(name@, opt_view(*value)));
        },
        None => {
            assert(pair_views(out@) =~= pair_views(old(out)@) + optional_pair(name@, opt_view(*value)));
        },
    }
}

/// `set` or `not set`.
fn set_or_not(value: &Option<String>) -> (r: String)
    ensures
        r@ == set_text(opt_view(*value)),
{
    match value {
        Some(_) => "set".to_owned(),
        None => "not set".to_owned(),
    }
}

/// The default Klondike address.
pub fn default_klondike_url() -> (r: String)
    ensures
        r@ == default_klondike_url_text(),
{
    "http://localhost:3000".to_owned()
}

/// The Klondike address the server uses: the configured one, or the default.
pub fn server_klondike_url(configured: Option<String>) -> (r: String)
    ensures
        r@ == match configured {
            Some(u) => u@,
            None => default_klondike_url_text(),
        },
{
    match configured {
        Some(u) => u,
        None => default_klondike_url(),
    }
}

/// The message when `docker compose` could not be started.
pub fn compose_start_error(detail: &str) -> (r: String)
    ensures
        r@ == "failed to run docker compose: "@ + detail@,
{
    "failed to run docker compose: ".to_owned().concat(detail)
}

/// The message when `docker compose` ended unsuccessfully with `status`.
pub fn compose_exit_error(status: &str) -> (r: String)
    ensures
        r@ == "docker compose exited with "@ + status@,
{
    "docker compose exited with ".to_owned().concat(status)
}

/// The lines the status command prints when loading the configuration failed
/// with `err`.
pub fn status_error_lines(err: &str) -> (r: Vec<String>)
    ensures
        line_views(r@) == status_error_lines_of(err@),
{
    let mut lines: Vec<String> = Vec::new();
    lines.push("Could not load config: ".to_owned().concat(err));
    lines.push(String::new());
    assert(line_views(lines@) =~= status_error_lines_of(err@));
    lines
}

/// What the status command prints about the configuration it tried to load.
pub fn status_report(loaded: &Result<SwitchboardConfig, String>) -> (r: Vec<String>)
    ensures
        line_views(r@) == match loaded {
            Ok(c) => status_lines_of(c@),
            Err(e) => status_error_lines_of(e@),
        },
{
    match loaded {
        Ok(c) => c.status_lines(),
        Err(e) => status_error_lines(e.as_str()),
    }
}

/// The status report never shows a token: two configurations with the same
/// port and address, and the same tokens set, print the same lines whatever
/// the tokens hold.
pub proof fn law_status_hides_tokens(a: SwitchboardConfigView, b: SwitchboardConfigView)
    requires
        a.port == b.port,
        a.klondike_url == b.klondike_url,
        a.slack_token is Some <==> b.slack_token is Some,
        a.github_token is Some <==> b.github_token is Some,
    ensures
        status_lines_of(a) == status_lines_of(b),
{
}

/// The compose environment starts with the port and the Klondike address,
/// then holds one pair for each token that is set: a token's pair is there
/// exactly when that token is set, whatever the other token is, and nothing
/// else is there.
pub proof fn law_compose_env(c: SwitchboardConfigView)
    ensures
        compose_env_of(c).len() == 2 + (if c.slack_token is Some {
            1int
        } else {
            0int
        }) + (if c.github_token is Some {
            1int
        } else {
            0int
        }),
        compose_env_of(c)[0] == ("SWITCHBOARD_PORT"@, decimal_text(c.port as nat)),
        compose_env_of(c)[1] == ("KLONDIKE_URL"@, c.klondike_url),
        forall|t: Seq<char>|
            compose_env_of(c).contains(("SLACK_TOKEN"@, t)) <==> c.slack_token == Some(t),
        forall|t: Seq<char>|
            compose_env_of(c).contains(("GITHUB_TOKEN"@, t)) <==> c.github_token == Some(t),
{
    reveal_strlit("SWITCHBOARD_PORT");
    reveal_strlit("KLONDIKE_URL");
    reveal_strlit("SLACK_TOKEN");
    reveal_strlit("GITHUB_TOKEN");
    let port_key = "SWITCHBOARD_PORT"@;
    let url_key = "KLONDIKE_URL"@;
    let slack_key = "SLACK_TOKEN"@;
    let github_key = "GITHUB_TOKEN"@;
    assert(port_key.len() != slack_key.len() && port_key.len() != github_key.len());
    assert(url_key[0] != slack_key[0] && url_key[0] != github_key[0]);
    assert(slack_key[0] != github_key[0]);
    let env = compose_env_of(c);
    let head = seq![(port_key, decimal_text(c.port as nat)), (url_key, c.klondike_url)];
    let s = optional_pair(slack_key, c.slack_token);
    let g = optional_pair(github_key, c.github_token);
    assert(env == head + s + g);
    assert forall|t: Seq<char>| env.contains((slack_key, t)) <==> c.slack_token == Some(t) by {
        if c.slack_token == Some(t) {
            assert(env[2] == (slack_key, t));
        }
        if env.contains((slack_key, t)) {
            let i = choose|i: int| 0 <= i < env.len() && env[i] == (slack_key, t);
            if i == 0 {
                assert(env[0].0 == port_key);
            } else if i == 1 {
                assert(env[1].0 == url_key);
            } else if i < 2 + s.len() {
                assert(env[i] == s[i - 2]);
            } else {
                assert(env[i] == g[i - 2 - s.len()]);
                assert(env[i].0 == github_key);
            }
        }
    }
    assert forall|t: Seq<char>| env.contains((github_key, t)) <==> c.github_token == Some(t) by {
        if c.github_token == Some(t) {
            assert(env[2 + s.len() as int] == (github_key, t));
        }
        if env.contains((github_key, t)) {
            let i = choose|i: int| 0 <= i < env.len() && env[i] == (github_key, t);
            if i == 0 {
                assert(env[0].0 == port_key);
            } else if i == 1 {
                assert(env[1].0 == url_key);
            } else if i < 2 + s.len() {
                assert(env[i] == s[i - 2]);
                assert(env[i].0 == slack_key);
            } else {
                assert(env[i] == g[i - 2 - s.len()]);
            }
        }
    }
}

/// The secret files: one named `slack_token` holding the Slack token exactly
/// when it is set, one named `github_token` holding the GitHub token exactly
/// when it is set, whatever the other token is, and no other file.
pub proof fn law_secret_files(c: SwitchboardConfigView)
    ensures
        secret_files_of(c).len() == (if c.slack_token is Some {
            1int
        } else {
            0int
        }) + (if c.github_token is Some {
            1int
        } else {
            0int
        }),
        forall|t: Seq<char>|
            secret_files_of(c).contains(("slack_token"@, t)) <==> c.slack_token == Some(t),
        forall|t: Seq<char>|
            secret_files_of(c).contains(("github_token"@, t)) <==> c.github_token == Some(t),
{
    reveal_strlit("slack_token");
    reveal_strlit("github_token");
    let slack_key = "slack_token"@;
    let github_key = "github_token"@;
    assert(slack_key[0] != github_key[0]);
    let files = secret_files_of(c);
    let s = optional_pair(slack_key, c.slack_token);
    let g = optional_pair(github_key, c.github_token);
    assert(files == s + g);
    assert forall|t: Seq<char>| files.contains((slack_key, t)) <==> c.slack_token == Some(t) by {
        if c.slack_token == Some(t) {
            assert(files[0] == (slack_key, t));
        }
        if files.contains((slack_key, t)) {
            let i = choose|i: int| 0 <= i < files.len() && files[i] == (slack_key, t);
            if i < s.len() {
                assert(files[i] == s[i]);
            } else {
                assert(files[i] == g[i - s.len()]);
                assert(files[i].0 == github_key);
            }
        }
    }
    assert forall|t: Seq<char>| files.contains((github_key, t)) <==> c.github_token == Some(t) by {
        if c.github_token == Some(t) {
            assert(files[s.len() as int] == (github_key, t));
        }
        if files.contains((github_key, t)) {
            let i = choose|i: int| 0 <= i < files.len() && files[i] == (github_key, t);
            if i < s.len() {
                assert(files[i] == s[i]);
                assert(files[i].0 == slack_key);
            } else {
                assert(files[i] == g[i - s.len()]);
            }
        }
    }
}

/// A token answer counts as given exactly when it is not empty, and then it
/// is kept as typed.
pub proof fn law_answer(s: Seq<char>)
    ensures
        answer(s) is None <==> s.len() == 0,
        answer(s) is Some ==> answer(s) == Some(s),
{
}

/// The status report tells set from unset tokens: two configurations that
/// differ in whether a token is set print different lines for it.
pub proof fn law_status_tells_token_presence(a: SwitchboardConfigView, b: SwitchboardConfigView)
    ensures
        (a.slack_token is Some) != (b.slack_token is Some) ==> status_lines_of(a)[2]
            != status_lines_of(b)[2],
        (a.github_token is Some) != (b.github_token is Some) ==> status_lines_of(a)[3]
            != status_lines_of(b)[3],
{
    reveal_strlit("set");
    reveal_strlit("not set");
    assert("set"@.len() != "not set"@.len());
    let sl = "Slack token:  "@;
    let gl = "GitHub token: "@;
    if (a.slack_token is Some) != (b.slack_token is Some) {
        assert((sl + set_text(a.slack_token)).len() != (sl + set_text(b.slack_token)).len());
    }
    if (a.github_token is Some) != (b.github_token is Some) {
        assert((gl + set_text(a.github_token)).len() != (gl + set_text(b.github_token)).len());
    }
}

impl SwitchboardConfig {
    /// The configuration from the answers to the setup prompts; an empty
    /// token answer means the token is not set.
    pub fn from_answers(port: u16, klondike_url: String, slack_token: String, github_token: String) -> (c: Self)
        ensures
            c@ == (SwitchboardConfigView {
                port: port,
                klondike_url: klondike_url@,
                slack_token: answer(slack_token@),
                github_token: answer(github_token@),
            }),
    {
        SwitchboardConfig {
            port,
            klondike_url,
            slack_token: answer_of(slack_token),
            github_token: answer_of(github_token),
        }
    }

    /// The configuration from the values found in the configuration sources;
    /// a missing port is 4080 and a missing Klondike address is
    /// `http://localhost:3000`.
    pub fn resolve(
        port: Option<u16>,
        klondike_url: Option<String>,
        slack_token: Option<String>,
        github_token: Option<String>,
    ) -> (c: Self)
        ensures
            c@ == (SwitchboardConfigView {
                port: match port {
                    Some(p) => p,
                    None => DEFAULT_PORT,
                },
                klondike_url: match klondike_url {
                    Some(u) => u@,
                    None => default_klondike_url_text(),
                },
                slack_token: opt_view(slack_token),
                github_token: opt_view(github_token),
            }),
    {
        let port = match port {
            Some(p) => p,
            None => DEFAULT_PORT,
        };
        SwitchboardConfig {
            port,
            klondike_url: server_klondike_url(klondike_url),
            slack_token,
            github_token,
        }
    }

    /// The environment for `docker compose up`.
    pub fn compose_env(&self) -> (r: Vec<(String, String)>)
        ensures
            pair_views(r@) == compose_env_of(self@),
    {
        let mut env: Vec<(String, String)> = Vec::new();
        env.push(("SWITCHBOARD_PORT".to_owned(), decimal(self.port)));
        env.push(("KLONDIKE_URL".to_owned(), self.klondike_url.clone()));
        assert(pair_views(env@) =~= seq![
            ("SWITCHBOARD_PORT"@, decimal_text(self.port as nat)),
            ("KLONDIKE_URL"@, self.klondike_url@),
        ]);
        pair_if("SLACK_TOKEN", &self.slack_token, &mut env);
        pair_if("GITHUB_TOKEN", &self.github_token, &mut env);
        env
    }

    /// The secret files to write: `(file name, content)` for each token set.
    pub fn secret_files(&self) -> (r: Vec<(String, String)>)
        ensures
            pair_views(r@) == secret_files_of(self@),
    {
        let mut files: Vec<(String, String)> = Vec::new();
        assert(pair_views(files@) =~= Seq::<(Seq<char>, Seq<char>)>::empty());
        pair_if("slack_token", &self.slack_token, &mut files);
        pair_if("github_token", &self.github_token, &mut files);
        files
    }

    /// The lines the status command prints about this configuration.
    pub fn status_lines(&self) -> (r: Vec<String>)
        ensures
            line_views(r@) == status_lines_of(self@),
    {
        let mut lines: Vec<String> = Vec::new();
        lines.push("Port:         ".to_owned().concat(decimal(self.port).as_str()));
        lines.push("Klondike URL: ".to_owned().concat(self.klondike_url.as_str()));
        lines.push("Slack token:  ".to_owned().concat(set_or_not(&self.slack_token).as_str()));
        lines.push("GitHub token: ".to_owned().concat(set_or_not(&self.github_token).as_str()));
        lines.push(String::new());
        assert(line_views(lines@) =~= status_lines_of(self@));
        lines
    }
}

impl Clone for SwitchboardConfig {
    fn clone(&self) -> (r: Self)
        ensures
            r == *self,
    {
        SwitchboardConfig {
            port: self.port,
            klondike_url: self.klondike_url.clone(),
            slack_token: clone_opt_string(&self.slack_token),
            github_token: clone_opt_string(&self.github_token),
        }
    }
}

} // verus!
