//! The languages that the service highlights, and how a paste gets one: by name,
//! or by the extension of the file it came from.

use vstd::prelude::*;
use vstd::string::*;
use crate::text::text_eq;

verus! {

/// The token that leaves the choice of language to the service.
pub const AUTODETECT: &'static str = "autodetect";

/// The language that files with the extension `ext` are written in, if the
/// extension is a known one. Extensions are lower case and matched exactly.
pub open spec fn language_of_extension(ext: Seq<char>) -> Option<Seq<char>> {
    if ext == "rs"@ {
        Some("rust"@)
    } else if ext == "py"@ {
        Some("python"@)
    } else if ext == "js"@ {
        Some("javascript"@)
    } else if ext == "ts"@ {
        Some("typescript"@)
    } else if ext == "md"@ {
        Some("markdown"@)
    } else if ext == "json"@ {
        Some("json"@)
    } else if ext == "yaml"@ {
        Some("yaml"@)
    } else if ext == "yml"@ {
        Some("yaml"@)
    } else if ext == "sh"@ {
        Some("bash"@)
    } else if ext == "c"@ {
        Some("c"@)
    } else if ext == "h"@ {
        Some("c"@)
    } else if ext == "cpp"@ {
        Some("cpp"@)
    } else if ext == "hpp"@ {
        Some("cpp"@)
    } else if ext == "go"@ {
        Some("go"@)
    } else if ext == "java"@ {
        Some("java"@)
    } else if ext == "rb"@ {
        Some("ruby"@)
    } else if ext == "php"@ {
        Some("php"@)
    } else if ext == "html"@ {
        Some("html"@)
    } else if ext == "css"@ {
        Some("css"@)
    } else if ext == "xml"@ {
        Some("xml"@)
    } else if ext == "sql"@ {
        Some("sql"@)
    } else if ext == "toml"@ {
        Some("toml"@)
    } else if ext == "lua"@ {
        Some("lua"@)
    } else if ext == "pl"@ {
        Some("perl"@)
    } else if ext == "hs"@ {
        Some("haskell"@)
    } else if ext == "kt"@ {
        Some("kotlin"@)
    } else if ext == "swift"@ {
        Some("swift"@)
    } else if ext == "cs"@ {
        Some("csharp"@)
    } else if ext == "tex"@ {
        Some("latex"@)
    } else if ext == "diff"@ {
        Some("diff"@)
    } else if ext == "patch"@ {
        Some("diff"@)
    } else if ext == "ini"@ {
        Some("ini"@)
    } else {
        None
    }
}

/// Whether `token` names a language that the service highlights.
pub open spec fn is_known_language(token: Seq<char>) -> bool {
    token == "rust"@
        || token == "python"@
        || token == "javascript"@
        || token == "typescript"@
        || token == "markdown"@
        || token == "json"@
        || token == "yaml"@
        || token == "bash"@
        || token == "c"@
        || token == "cpp"@
        || token == "go"@
        || token == "java"@
        || token == "ruby"@
        || token == "php"@
        || token == "html"@
        || token == "css"@
        || token == "xml"@
        || token == "sql"@
        || token == "toml"@
        || token == "lua"@
        || token == "perl"@
        || token == "haskell"@
        || token == "kotlin"@
        || token == "swift"@
        || token == "csharp"@
        || token == "latex"@
        || token == "diff"@
        || token == "ini"@
}

/// Whether `token` may be sent to the service as a paste's language: a known
/// language, or the token that asks the service to detect it.
pub open spec fn is_language_token(token: Seq<char>) -> bool {
    token == "autodetect"@ || is_known_language(token)
}

/// Every language that an extension stands for is a known language.
pub proof fn lemma_extension_language_is_known(ext: Seq<char>)
    requires
        language_of_extension(ext) is Some,
    ensures
        is_known_language(language_of_extension(ext).unwrap()),
{
}

/// Every known language has an extension that stands for it.
pub proof fn lemma_known_language_has_extension(token: Seq<char>)
    requires
        is_known_language(token),
    ensures
        exists|ext: Seq<char>| language_of_extension(ext) == Some(token),
{
    let ext =
    if token == "rust"@ {
        "rs"@
    } else if token == "python"@ {
        "py"@
    } else if token == "javascript"@ {
        "js"@
    } else if token == "typescript"@ {
        "ts"@
    } else if token == "markdown"@ {
        "md"@
    } else if token == "json"@ {
        "json"@
    } else if token == "yaml"@ {
        "yaml"@
    } else if token == "bash"@ {
        "sh"@
    } else if token == "c"@ {
        "c"@
    } else if token == "cpp"@ {
        "cpp"@
    } else if token == "go"@ {
        "go"@
    } else if token == "java"@ {
        "java"@
    } else if token == "ruby"@ {
        "rb"@
    } else if token == "php"@ {
        "php"@
    } else if token == "html"@ {
        "html"@
    } else if token == "css"@ {
        "css"@
    } else if token == "xml"@ {
        "xml"@
    } else if token == "sql"@ {
        "sql"@
    } else if token == "toml"@ {
        "toml"@
    } else if token == "lua"@ {
        "lua"@
    } else if token == "perl"@ {
        "pl"@
    } else if token == "haskell"@ {
        "hs"@
    } else if token == "kotlin"@ {
        "kt"@
    } else if token == "swift"@ {
        "swift"@
    } else if token == "csharp"@ {
        "cs"@
    } else if token == "latex"@ {
        "tex"@
    } else if token == "diff"@ {
        "diff"@
    } else if token == "ini"@ {
        "ini"@
    } else {
        token
    };
    reveal_strlit("rs");
    assert("rs"@.len() == 2 && "rs"@[0] == 'r' && "rs"@[1] == 's');
    reveal_strlit("py");
    assert("py"@.len() == 2 && "py"@[0] == 'p' && "py"@[1] == 'y');
    reveal_strlit("js");
    assert("js"@.len() == 2 && "js"@[0] == 'j' && "js"@[1] == 's');
    reveal_strlit("ts");
    assert("ts"@.len() == 2 && "ts"@[0] == 't' && "ts"@[1] == 's');
    reveal_strlit("md");
    assert("md"@.len() == 2 && "md"@[0] == 'm' && "md"@[1] == 'd');
    reveal_strlit("json");
    assert("json"@.len() == 4 && "json"@[0] == 'j' && "json"@[1] == 's' && "json"@[2] == 'o' && "json"@[3] == 'n');
    reveal_strlit("yaml");
    assert("yaml"@.len() == 4 && "yaml"@[0] == 'y' && "yaml"@[1] == 'a' && "yaml"@[2] == 'm' && "yaml"@[3] == 'l');
    reveal_strlit("yml");
    assert("yml"@.len() == 3 && "yml"@[0] == 'y' && "yml"@[1] == 'm' && "yml"@[2] == 'l');
    reveal_strlit("sh");
    assert("sh"@.len() == 2 && "sh"@[0] == 's' && "sh"@[1] == 'h');
    reveal_strlit("c");
    assert("c"@.len() == 1 && "c"@[0] == 'c');
    reveal_strlit("h");
    assert("h"@.len() == 1 && "h"@[0] == 'h');
    reveal_strlit("cpp");
    assert("cpp"@.len() == 3 && "cpp"@[0] == 'c' && "cpp"@[1] == 'p' && "cpp"@[2] == 'p');
    reveal_strlit("hpp");
    assert("hpp"@.len() == 3 && "hpp"@[0] == 'h' && "hpp"@[1] == 'p' && "hpp"@[2] == 'p');
    reveal_strlit("go");
    assert("go"@.len() == 2 && "go"@[0] == 'g' && "go"@[1] == 'o');
    reveal_strlit("java");
    assert("java"@.len() == 4 && "java"@[0] == 'j' && "java"@[1] == 'a' && "java"@[2] == 'v' && "java"@[3] == 'a');
    reveal_strlit("rb");
    assert("rb"@.len() == 2 && "rb"@[0] == 'r' && "rb"@[1] == 'b');
    reveal_strlit("php");
    assert("php"@.len() == 3 && "php"@[0] == 'p' && "php"@[1] == 'h' && "php"@[2] == 'p');
    reveal_strlit("html");
    assert("html"@.len() == 4 && "html"@[0] == 'h' && "html"@[1] == 't' && "html"@[2] == 'm' && "html"@[3] == 'l');
    reveal_strlit("css");
    assert("css"@.len() == 3 && "css"@[0] == 'c' && "css"@[1] == 's' && "css"@[2] == 's');
    reveal_strlit("xml");
    assert("xml"@.len() == 3 && "xml"@[0] == 'x' && "xml"@[1] == 'm' && "xml"@[2] == 'l');
    reveal_strlit("sql");
    assert("sql"@.len() == 3 && "sql"@[0] == 's' && "sql"@[1] == 'q' && "sql"@[2] == 'l');
    reveal_strlit("toml");
    assert("toml"@.len() == 4 && "toml"@[0] == 't' && "toml"@[1] == 'o' && "toml"@[2] == 'm' && "toml"@[3] == 'l');
    reveal_strlit("lua");
    assert("lua"@.len() == 3 && "lua"@[0] == 'l' && "lua"@[1] == 'u' && "lua"@[2] == 'a');
    reveal_strlit("pl");
    assert("pl"@.len() == 2 && "pl"@[0] == 'p' && "pl"@[1] == 'l');
    reveal_strlit("hs");
    assert("hs"@.len() == 2 && "hs"@[0] == 'h' && "hs"@[1] == 's');
    reveal_strlit("kt");
    assert("kt"@.len() == 2 && "kt"@[0] == 'k' && "kt"@[1] == 't');
    reveal_strlit("swift");
    assert("swift"@.len() == 5 && "swift"@[0] == 's' && "swift"@[1] == 'w' && "swift"@[2] == 'i' && "swift"@[3] == 'f' && "swift"@[4] == 't');
    reveal_strlit("cs");
    assert("cs"@.len() == 2 && "cs"@[0] == 'c' && "cs"@[1] == 's');
    reveal_strlit("tex");
    assert("tex"@.len() == 3 && "tex"@[0] == 't' && "tex"@[1] == 'e' && "tex"@[2] == 'x');
    reveal_strlit("diff");
    assert("diff"@.len() == 4 && "diff"@[0] == 'd' && "diff"@[1] == 'i' && "diff"@[2] == 'f' && "diff"@[3] == 'f');
    reveal_strlit("patch");
    assert("patch"@.len() == 5 && "patch"@[0] == 'p' && "patch"@[1] == 'a' && "patch"@[2] == 't' && "patch"@[3] == 'c' && "patch"@[4] == 'h');
    reveal_strlit("ini");
    assert("ini"@.len() == 3 && "ini"@[0] == 'i' && "ini"@[1] == 'n' && "ini"@[2] == 'i');
    assert(language_of_extension(ext) == Some(token));
}

/// The index of the last `.` among the first `upto` characters of `s`, or -1 if
/// there is none.
pub open spec fn last_dot(s: Seq<char>, upto: int) -> int
    decreases upto,
{
    if upto <= 0 || upto > s.len() {
        -1
    } else if s[upto - 1] == '.' {
        upto - 1
    } else {
        last_dot(s, upto - 1)
    }
}

/// The extension of a file name: what follows its last `.`, if it has one.
pub open spec fn extension_of(name: Seq<char>) -> Option<Seq<char>> {
    let dot = last_dot(name, name.len() as int);
    if dot < 0 {
        None
    } else {
        Some(name.subrange(dot + 1, name.len() as int))
    }
}

/// The language that a file name suggests: that of its extension, if it has one and
/// the extension is known.
pub open spec fn guessed_language(name: Seq<char>) -> Option<Seq<char>> {
    match extension_of(name) {
        None => None,
        Some(ext) => language_of_extension(ext),
    }
}

/// Looks an extension up among the known ones.
pub fn extension_language(ext: &str) -> (r: Option<&'static str>)
    ensures
        match r {
            Some(language) => language_of_extension(ext@) == Some(language@),
            None => language_of_extension(ext@) is None,
        },
{
    if text_eq(ext, "rs") {
        Some("rust")
    } else if text_eq(ext, "py") {
        Some("python")
    } else if text_eq(ext, "js") {
        Some("javascript")
    } else if text_eq(ext, "ts") {
        Some("typescript")
    } else if text_eq(ext, "md") {
        Some("markdown")
    } else if text_eq(ext, "json") {
        Some("json")
    } else if text_eq(ext, "yaml") {
        Some("yaml")
    } else if text_eq(ext, "yml") {
        Some("yaml")
    } else if text_eq(ext, "sh") {
        Some("bash")
    } else if text_eq(ext, "c") {
        Some("c")
    } else if text_eq(ext, "h") {
        Some("c")
    } else if text_eq(ext, "cpp") {
        Some("cpp")
    } else if text_eq(ext, "hpp") {
        Some("cpp")
    } else if text_eq(ext, "go") {
        Some("go")
    } else if text_eq(ext, "java") {
        Some("java")
    } else if text_eq(ext, "rb") {
        Some("ruby")
    } else if text_eq(ext, "php") {
        Some("php")
    } else if text_eq(ext, "html") {
        Some("html")
    } else if text_eq(ext, "css") {
        Some("css")
    } else if text_eq(ext, "xml") {
        Some("xml")
    } else if text_eq(ext, "sql") {
        Some("sql")
    } else if text_eq(ext, "toml") {
        Some("toml")
    } else if text_eq(ext, "lua") {
        Some("lua")
    } else if text_eq(ext, "pl") {
        Some("perl")
    } else if text_eq(ext, "hs") {
        Some("haskell")
    } else if text_eq(ext, "kt") {
        Some("kotlin")
    } else if text_eq(ext, "swift") {
        Some("swift")
    } else if text_eq(ext, "cs") {
        Some("csharp")
    } else if text_eq(ext, "tex") {
        Some("latex")
    } else if text_eq(ext, "diff") {
        Some("diff")
    } else if text_eq(ext, "patch") {
        Some("diff")
    } else if text_eq(ext, "ini") {
        Some("ini")
    } else {
        None
    }
}

/// Finds the known language that `token` names.
pub fn known_language(token: &str) -> (r: Option<&'static str>)
    ensures
        match r {
            Some(language) => language@ == token@ && is_known_language(token@),
            None => !is_known_language(token@),
        },
{
    if text_eq(token, "rust") {
        Some("rust")
    } else if text_eq(token, "python") {
        Some("python")
    } else if text_eq(token, "javascript") {
        Some("javascript")
    } else if text_eq(token, "typescript") {
        Some("typescript")
    } else if text_eq(token, "markdown") {
        Some("markdown")
    } else if text_eq(token, "json") {
        Some("json")
    } else if text_eq(token, "yaml") {
        Some("yaml")
    } else if text_eq(token, "bash") {
        Some("bash")
    } else if text_eq(token, "c") {
        Some("c")
    } else if text_eq(token, "cpp") {
        Some("cpp")
    } else if text_eq(token, "go") {
        Some("go")
    } else if text_eq(token, "java") {
        Some("java")
    } else if text_eq(token, "ruby") {
        Some("ruby")
    } else if text_eq(token, "php") {
        Some("php")
    } else if text_eq(token, "html") {
        Some("html")
    } else if text_eq(token, "css") {
        Some("css")
    } else if text_eq(token, "xml") {
        Some("xml")
    } else if text_eq(token, "sql") {
        Some("sql")
    } else if text_eq(token, "toml") {
        Some("toml")
    } else if text_eq(token, "lua") {
        Some("lua")
    } else if text_eq(token, "perl") {
        Some("perl")
    } else if text_eq(token, "haskell") {
        Some("haskell")
    } else if text_eq(token, "kotlin") {
        Some("kotlin")
    } else if text_eq(token, "swift") {
        Some("swift")
    } else if text_eq(token, "csharp") {
        Some("csharp")
    } else if text_eq(token, "latex") {
        Some("latex")
    } else if text_eq(token, "diff") {
        Some("diff")
    } else if text_eq(token, "ini") {
        Some("ini")
    } else {
        None
    }
}

/// Why a language token was refused.
#[derive(Debug)]
pub enum LanguageError {
    /// The token is neither a known language nor `autodetect`.
    UnknownLanguage { token: String },
}

/// The mathematical content of a `LanguageError`.
pub enum LanguageFailure {
    UnknownLanguage { token: Seq<char> },
}

impl View for LanguageError {
    type V = LanguageFailure;

    open spec fn view(&self) -> LanguageFailure {
        match self {
            LanguageError::UnknownLanguage { token } => LanguageFailure::UnknownLanguage {
                token: token@,
            },
        }
    }
}

impl LanguageError {
    /// The text that tells a person what was wrong with the language.
    pub open spec fn message_text(failure: LanguageFailure) -> Seq<char> {
        match failure {
            LanguageFailure::UnknownLanguage { token } => "Unknown language `"@ + token
                + "'; expected `autodetect' or one of: "@ + "rust, python, javascript, typescript, markdown, json, yaml, bash, c, cpp, go, java, ruby, php, html, css, xml, sql, toml, lua, perl, haskell, kotlin, swift, csharp, latex, diff, ini"@,
        }
    }

    /// Describes the error: the token that was refused is named, with the tokens
    /// there are.
    pub fn message(&self) -> (r: String)
        ensures
            r@ == Self::message_text(self@),
    {
        match self {
            LanguageError::UnknownLanguage { token } => {
                let mut r = String::from_str("Unknown language `");
                r.append(token.as_str());
                r.append("'; expected `autodetect' or one of: ");
                r.append(
                    "rust, python, javascript, typescript, markdown, json, yaml, bash, c, cpp, go, java, ruby, php, html, css, xml, sql, toml, lua, perl, haskell, kotlin, swift, csharp, latex, diff, ini",
                );
                r
            },
        }
    }
}

/// Guesses the language of a file from the extension of its name.
///
/// The extension is what follows the last `.` of `name`. A name without a `.`, or
/// with an extension that is not known, gives no guess.
pub fn guess_language(name: &str) -> (r: Option<&'static str>)
    ensures
        match r {
            Some(language) => guessed_language(name@) == Some(language@) && is_known_language(
                language@,
            ),
            None => guessed_language(name@) is None,
        },
{
    let len = name.unicode_len();
    let mut end: usize = len;
    while end > 0
        invariant
            len == name@.len(),
            end <= len,
            last_dot(name@, end as int) == last_dot(name@, len as int),
        ensures
            last_dot(name@, len as int) == end - 1,
        decreases end,
    {
        if name.get_char(end - 1) == '.' {
            break;
        }
        end -= 1;
    }
    if end == 0 {
        return None;
    }
    let r = extension_language(name.substring_char(end, len));
    proof {
        if r is Some {
            lemma_extension_language_is_known(extension_of(name@).unwrap());
        }
    }
    r
}

/// Checks a language token given by a person.
///
/// A known language and `autodetect` are handed back as they are; anything else is
/// refused.
pub fn validate_language(token: &str) -> (r: Result<&'static str, LanguageError>)
    ensures
        match r {
            Ok(language) => language@ == token@ && is_language_token(token@),
            Err(e) => !is_language_token(token@) && e@ == (LanguageFailure::UnknownLanguage {
                token: token@,
            }),
        },
{
    if text_eq(token, AUTODETECT) {
        return Ok(AUTODETECT);
    }
    match known_language(token) {
        Some(language) => Ok(language),
        None => Err(LanguageError::UnknownLanguage { token: String::from_str(token) }),
    }
}

} // verus!
