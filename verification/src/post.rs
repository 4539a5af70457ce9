//! The words of the post that announces the day: its headline, its tags, the
//! text that stands for its picture and the line that credits the picture;
//! and what is asked of the picture itself.

use vstd::prelude::*;
use vstd::string::*;

verus! {

/// The greatest number of bytes that the picture of a post may have.
pub const MAX_PICTURE_BYTES: usize = 5_000_000;

/// The name under which the picture is asked for, on behalf of the account
/// of `email`.
pub open spec fn user_agent_text(email: Seq<char>) -> Seq<char> {
    "primidi cohost bot ("@ + email + ")"@
}

/// The headline for a day whose date reads `date`: the date alone where the
/// day has no theme, the date and the theme where it has one.
pub open spec fn headline_text(date: Seq<char>, theme: Seq<char>) -> Seq<char> {
    if theme.len() == 0 {
        "Today is "@ + date + "."@
    } else {
        "Today is "@ + date + ", celebrating "@ + theme + "."@
    }
}

/// The words that stand for the picture of `theme`.
pub open spec fn picture_text(theme: Seq<char>) -> Seq<char> {
    "Illustration of "@ + theme
}

/// `theme` without the article "the " where it begins with one.
pub open spec fn without_article(theme: Seq<char>) -> Seq<char> {
    if "the "@.is_prefix_of(theme) {
        theme.skip("the "@.len() as int)
    } else {
        theme
    }
}

/// The tags of a post: the calendar always, and the theme without its
/// article where the day has a theme.
pub open spec fn tag_texts(theme: Seq<char>) -> Seq<Seq<char>> {
    if theme.len() == 0 {
        seq!["french republican calendar"@]
    } else {
        seq!["french republican calendar"@, without_article(theme)]
    }
}

/// The line under the picture, which links to the page at `url` that
/// describes it.
pub open spec fn credit_text(url: Seq<char>) -> Seq<char> {
    "<div style=\"display:flex;justify-content:center;font-size:0.8rem\"><a href=\""@ + url
        + "\">[image source]</a></div>"@
}

/// The name under which the picture is asked for.
pub fn user_agent(email: &str) -> (text: String)
    ensures
        text@ == user_agent_text(email@),
{
    let mut text = String::new();
    text.append("primidi cohost bot (");
    text.append(email);
    text.append(")");
    text
}

/// The headline of the post for the day whose date reads `date`.
pub fn headline(date: &str, theme: &str) -> (text: String)
    ensures
        text@ == headline_text(date@, theme@),
{
    let mut text = String::new();
    text.append("Today is ");
    text.append(date);
    if !theme.is_empty() {
        text.append(", celebrating ");
        text.append(theme);
    }
    text.append(".");
    text
}

/// The words that stand for the picture where it cannot be seen.
pub fn alt_text(theme: &str) -> (text: String)
    ensures
        text@ == picture_text(theme@),
{
    let mut text = String::new();
    text.append("Illustration of ");
    text.append(theme);
    text
}

/// `theme` without the article "the " where it begins with one.
pub fn strip_article(theme: &str) -> (rest: &str)
    ensures
        rest@ == without_article(theme@),
{
    proof {
        reveal_strlit("the ");
    }
    let length = theme.unicode_len();
    if length >= 4 && theme.get_char(0) == 't' && theme.get_char(1) == 'h' && theme.get_char(2)
        == 'e' && theme.get_char(3) == ' ' {
        assert("the "@ =~= theme@.subrange(0, 4));
        assert(theme@.subrange(4, length as int) =~= theme@.skip(4));
        theme.substring_char(4, length)
    } else {
        assert(!"the "@.is_prefix_of(theme@)) by {
            if "the "@.is_prefix_of(theme@) {
                let head = theme@.subrange(0, 4);
                assert("the "@ == head);
                assert(head[0] == theme@[0] && head[1] == theme@[1] && head[2] == theme@[2]
                    && head[3] == theme@[3]);
            }
        }
        theme
    }
}

/// The tags of the post.
pub fn tags(theme: &str) -> (tags: Vec<String>)
    ensures
        tags@.len() == tag_texts(theme@).len(),
        forall|i: int| 0 <= i < tags@.len() ==> tags@[i]@ == #[trigger] tag_texts(theme@)[i],
{
    let mut tags: Vec<String> = Vec::new();
    tags.push("french republican calendar".to_owned());
    if !theme.is_empty() {
        tags.push(strip_article(theme).to_owned());
    }
    tags
}

/// The line that credits the picture.
pub fn credit(url: &str) -> (text: String)
    ensures
        text@ == credit_text(url@),
{
    let mut text = String::new();
    text.append("<div style=\"display:flex;justify-content:center;font-size:0.8rem\"><a href=\"");
    text.append(url);
    text.append("\">[image source]</a></div>");
    text
}

} // verus!
