use gclone::language::top_language_of;
use tokei::{Language, LanguageType, Languages};

fn statistics(entries: &[(LanguageType, usize)]) -> Languages {
    let mut languages = Languages::new();
    for (kind, code) in entries {
        let mut language = Language::new();
        language.code = *code;
        languages.insert(*kind, language);
    }
    languages
}

#[test]
fn statistics_with_code_and_markup() {
    let s = statistics(&[(LanguageType::Rust, 500), (LanguageType::Markdown, 50)]);
    assert_eq!(top_language_of(&s), "rust");
}

#[test]
fn statistics_with_little_code_and_much_markup() {
    let s = statistics(&[(LanguageType::Json, 300), (LanguageType::Python, 2)]);
    assert_eq!(top_language_of(&s), "python");
}

#[test]
fn statistics_with_markup_only() {
    let s = statistics(&[(LanguageType::Json, 300), (LanguageType::Yaml, 10)]);
    assert_eq!(top_language_of(&s), "json");
    let s = statistics(&[(LanguageType::Css, 30), (LanguageType::Html, 100)]);
    assert_eq!(top_language_of(&s), "html");
}

#[test]
fn statistics_without_languages() {
    assert_eq!(top_language_of(&statistics(&[])), "other");
    assert_eq!(top_language_of(&statistics(&[(LanguageType::Rust, 0)])), "other");
}

#[test]
fn statistics_with_c_sharp() {
    assert_eq!(top_language_of(&statistics(&[(LanguageType::CSharp, 20)])), "csharp");
}

#[test]
fn statistics_with_a_name_of_two_words() {
    assert_eq!(top_language_of(&statistics(&[(LanguageType::VisualBasic, 20)])), "visualbasic");
}
