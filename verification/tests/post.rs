use primidi::post::{
    alt_text, credit, headline, strip_article, tags, user_agent, MAX_PICTURE_BYTES,
};
use primidi::{GregorianDate, RepublicanDate};

#[test]
fn headline_of_a_day_with_a_theme() {
    assert_eq!(
        headline("duodi 2 Vendémiaire, Year CCXXXI", "saffron"),
        "Today is duodi 2 Vendémiaire, Year CCXXXI, celebrating saffron."
    );
}

#[test]
fn headline_of_a_day_without_a_theme() {
    assert_eq!(
        headline("celebration of virtue, Year CCXXXI", ""),
        "Today is celebration of virtue, Year CCXXXI."
    );
}

#[test]
fn headline_of_a_converted_date() {
    let date = RepublicanDate::from(GregorianDate::new(2022, 9, 23).unwrap()).format();
    assert_eq!(
        headline(&date, "the grape"),
        "Today is duodi 2 Vendémiaire, Year CCXXXI, celebrating the grape."
    );
}

#[test]
fn alt_text_names_the_theme() {
    assert_eq!(alt_text("saffron"), "Illustration of saffron");
    assert_eq!(alt_text("the grape"), "Illustration of the grape");
    assert_eq!(alt_text(""), "Illustration of ");
}

#[test]
fn article_is_stripped_once_from_the_front() {
    assert_eq!(strip_article("the grape"), "grape");
    assert_eq!(strip_article("the the"), "the");
    assert_eq!(strip_article("the "), "");
    assert_eq!(strip_article("the"), "the");
    assert_eq!(strip_article("saffron"), "saffron");
    assert_eq!(strip_article("then"), "then");
    assert_eq!(strip_article("The grape"), "The grape");
    assert_eq!(strip_article(" the grape"), " the grape");
    assert_eq!(strip_article("thé the thé"), "thé the thé");
    assert_eq!(strip_article("the châtaigne"), "châtaigne");
    assert_eq!(strip_article(""), "");
}

#[test]
fn tags_name_the_calendar_and_the_theme() {
    assert_eq!(tags("saffron"), vec!["french republican calendar", "saffron"]);
    assert_eq!(tags("the grape"), vec!["french republican calendar", "grape"]);
    assert_eq!(tags(""), vec!["french republican calendar"]);
}

#[test]
fn credit_links_to_the_source() {
    assert_eq!(
        credit("https://example.org/saffron"),
        "<div style=\"display:flex;justify-content:center;font-size:0.8rem\">\
         <a href=\"https://example.org/saffron\">[image source]</a></div>"
    );
}

#[test]
fn user_agent_names_the_account() {
    assert_eq!(user_agent("bot@example.org"), "primidi cohost bot (bot@example.org)");
}

#[test]
fn pictures_have_a_greatest_size() {
    assert_eq!(MAX_PICTURE_BYTES, 5_000_000);
}
