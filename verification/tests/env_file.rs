use hotdog::dotenv::dotenv;

fn pairs(text: &str) -> Vec<(String, String)> {
    dotenv(text)
}

fn pair(k: &str, v: &str) -> (String, String) {
    (String::from(k), String::from(v))
}

#[test]
fn one_entry_per_line() {
    assert_eq!(pairs("A=1\nB=2\n"), vec![pair("A", "1"), pair("B", "2")]);
    assert_eq!(pairs("A=1\nB=2"), vec![pair("A", "1"), pair("B", "2")]);
}

#[test]
fn key_and_value_are_trimmed() {
    assert_eq!(pairs("  KEY \t=  some value  \r\n"), vec![pair("KEY", "some value")]);
    assert_eq!(pairs("\u{a0}K\u{3000}=\u{2003}v\u{85}"), vec![pair("K", "v")]);
}

#[test]
fn split_is_at_the_first_equals_sign() {
    assert_eq!(pairs("URL=a=b=c"), vec![pair("URL", "a=b=c")]);
    assert_eq!(pairs("K=="), vec![pair("K", "=")]);
}

#[test]
fn lines_without_equals_sign_are_ignored() {
    assert_eq!(pairs("\n\nno entry here\n   \nA=1\n# note\n"), vec![pair("A", "1")]);
    assert_eq!(pairs(""), Vec::<(String, String)>::new());
}

#[test]
fn nothing_is_unquoted_or_unescaped() {
    assert_eq!(pairs("K=\"a b\"\nP=a\\nb"), vec![pair("K", "\"a b\""), pair("P", "a\\nb")]);
}

#[test]
fn empty_sides_are_kept() {
    assert_eq!(pairs("=\nK=\n=v"), vec![pair("", ""), pair("K", ""), pair("", "v")]);
}

#[test]
fn api_key_line() {
    assert_eq!(pairs("OPENAI_API_KEY = sk-abc123\n"), vec![pair("OPENAI_API_KEY", "sk-abc123")]);
}
