use patisserie::language::{
    extension_language, guess_language, known_language, validate_language, LanguageError,
    AUTODETECT,
};

#[test]
fn rust_source_is_guessed() {
    assert_eq!(guess_language("main.rs"), Some("rust"));
}

#[test]
fn name_without_extension_gives_no_guess() {
    assert_eq!(guess_language("README"), None);
    assert_eq!(guess_language(""), None);
}

#[test]
fn python_script_is_guessed() {
    assert_eq!(guess_language("script.py"), Some("python"));
}

#[test]
fn common_extensions_are_known() {
    assert_eq!(guess_language("a.js"), Some("javascript"));
    assert_eq!(guess_language("a.md"), Some("markdown"));
    assert_eq!(guess_language("a.json"), Some("json"));
    assert_eq!(guess_language("a.yaml"), Some("yaml"));
    assert_eq!(guess_language("a.yml"), Some("yaml"));
    assert_eq!(guess_language("a.sh"), Some("bash"));
    assert_eq!(guess_language("a.c"), Some("c"));
    assert_eq!(guess_language("a.h"), Some("c"));
    assert_eq!(guess_language("a.cpp"), Some("cpp"));
    assert_eq!(guess_language("a.hpp"), Some("cpp"));
    assert_eq!(guess_language("a.go"), Some("go"));
    assert_eq!(guess_language("fix.patch"), Some("diff"));
}

#[test]
fn only_the_last_extension_counts() {
    assert_eq!(guess_language("archive.tar.gz"), None);
    assert_eq!(guess_language("lib.rs.bak"), None);
    assert_eq!(guess_language("notes.txt.md"), Some("markdown"));
    assert_eq!(guess_language("src/bin/main.rs"), Some("rust"));
    assert_eq!(guess_language("dir.rs/README"), None);
    assert_eq!(guess_language("trailing."), None);
}

#[test]
fn extensions_are_matched_exactly() {
    assert_eq!(guess_language("MAIN.RS"), None);
    assert_eq!(guess_language("main.Rs"), None);
    assert_eq!(guess_language("main.rs "), None);
    assert_eq!(guess_language("main.rss"), None);
}

#[test]
fn unknown_extension_gives_no_guess() {
    assert_eq!(guess_language("picture.png"), None);
    assert_eq!(extension_language("png"), None);
    assert_eq!(extension_language("rs"), Some("rust"));
    assert_eq!(extension_language(""), None);
}

#[test]
fn autodetect_is_accepted() {
    assert_eq!(validate_language("autodetect").unwrap(), "autodetect");
    assert_eq!(AUTODETECT, "autodetect");
}

#[test]
fn bogus_language_is_refused() {
    match validate_language("bogus") {
        Err(LanguageError::UnknownLanguage { token }) => assert_eq!(token, "bogus"),
        other => panic!("expected a refusal, got {:?}", other),
    }
}

#[test]
fn known_languages_are_handed_back() {
    for token in ["rust", "python", "javascript", "markdown", "json", "yaml", "bash", "c", "cpp", "go", "diff"] {
        assert_eq!(validate_language(token).unwrap(), token);
        assert_eq!(known_language(token), Some(token));
    }
}

#[test]
fn extensions_and_near_misses_are_no_languages() {
    for token in ["rs", "py", "Rust", "rust ", "", "auto", "AUTODETECT"] {
        assert!(validate_language(token).is_err(), "`{}' was accepted", token);
    }
    assert_eq!(known_language("autodetect"), None);
}

#[test]
fn every_guess_is_a_valid_language() {
    for name in ["a.rs", "a.py", "a.ts", "a.kt", "a.cs", "a.tex", "a.ini", "a.toml", "a.hs", "a.pl"] {
        let guess = guess_language(name).unwrap();
        assert_eq!(validate_language(guess).unwrap(), guess);
    }
}

#[test]
fn language_message_names_the_token() {
    let e = validate_language("bogus").unwrap_err();
    assert_eq!(
        e.message(),
        "Unknown language `bogus'; expected `autodetect' or one of: rust, python, javascript, typescript, markdown, json, yaml, bash, c, cpp, go, java, ruby, php, html, css, xml, sql, toml, lua, perl, haskell, kotlin, swift, csharp, latex, diff, ini"
    );
}

#[test]
fn message_lists_the_languages_there_are() {
    let message = validate_language("bogus").unwrap_err().message();
    let listed = message.split("one of: ").nth(1).unwrap();
    for token in listed.split(", ") {
        assert_eq!(validate_language(token).unwrap(), token);
    }
    assert_eq!(listed.split(", ").count(), 28);
}
