//! Tag rows as first stored, with their colour kept as its three channels.

use vstd::prelude::*;
use crate::routes::utils::all_ascii;
use crate::text::hex_digit;
use crate::values::{Timestamp, Uuid};

verus! {

/// A colour as its red, green and blue channels.
#[derive(Clone, Copy, PartialEq, Eq, Structural, Debug)]
pub struct Rgb {
    pub r: u8,
    pub g: u8,
    pub b: u8,
}

/// A channel written with one digit `d`, which stands for `dd`.
pub open spec fn short_channel(c: char) -> Option<u8> {
    match hex_digit(c) {
        Some(d) => Some((d * 17) as u8),
        None => None,
    }
}

/// A channel written with two characters, read as `u8::from_str_radix`
/// reads them in base 16: two digits, or a `+` sign and one digit.
pub open spec fn full_channel(a: char, b: char) -> Option<u8> {
    match (hex_digit(a), hex_digit(b)) {
        (Some(h), Some(l)) => Some((h * 16 + l) as u8),
        _ => if a == '+' {
            match hex_digit(b) {
                Some(l) => Some(l as u8),
                None => None,
            }
        } else {
            None
        },
    }
}

/// What `hex_color::HexColor::parse_rgb` gives for a text: the channels of
/// a `#RGB` or `#RRGGBB` code (digits in either case), and nothing for any
/// other text. The parser counts bytes, so a text with a character outside
/// ASCII is never a code.
pub open spec fn hex_rgb(text: Seq<char>) -> Option<(u8, u8, u8)> {
    if !all_ascii(text) || text.len() == 0 || text[0] != '#' {
        None
    } else if text.len() == 4 {
        match (short_channel(text[1]), short_channel(text[2]), short_channel(text[3])) {
            (Some(r), Some(g), Some(b)) => Some((r, g, b)),
            _ => None,
        }
    } else if text.len() == 7 {
        match (full_channel(text[1], text[2]), full_channel(text[3], text[4]), full_channel(text[5], text[6])) {
            (Some(r), Some(g), Some(b)) => Some((r, g, b)),
            _ => None,
        }
    } else {
        None
    }
}

/// Calls `hex_color::HexColor::parse_rgb` and keeps the three channels.
///
/// Trusted: the result is `hex_rgb` of the text, as the parser's
/// `parse_internals`, `parse_shorthand` and `parse_full` show.
#[verifier::external_body]
fn parse_rgb(text: &str) -> (r: Option<Rgb>)
    ensures
        r == match hex_rgb(text@) {
            Some(c) => Some(Rgb { r: c.0, g: c.1, b: c.2 }),
            None => None,
        },
{
    match hex_color::HexColor::parse_rgb(text) {
        Ok(c) => Some(Rgb { r: c.r, g: c.g, b: c.b }),
        Err(_) => None,
    }
}

/// The colour of a tag, from the text stored for it: none when nothing is
/// stored or the text is not a colour code.
pub fn color_from_stored(stored: Option<&str>) -> (r: Option<Rgb>)
    ensures
        r == match stored {
            Some(t) => match hex_rgb(t@) {
                Some(c) => Some(Rgb { r: c.0, g: c.1, b: c.2 }),
                None => None,
            },
            None => None,
        },
{
    match stored {
        Some(t) => parse_rgb(t),
        None => None,
    }
}

/// Tag Database Model
pub struct TagModel {
    pub tag_id: Uuid,
    pub label: Option<String>,
    pub category: Option<String>,
    pub color: Option<Rgb>,
    pub created_on: Timestamp,
    pub updated_on: Timestamp,
}

impl TagModel {
    pub const ID: &'static str = "tag_id";
    pub const LABEL: &'static str = "tag_label";
    pub const CATEGORY: &'static str = "tag_category";
    pub const COLOR: &'static str = "color";
    pub const USER_ID: &'static str = "user_id";
    pub const CREATED: &'static str = "created_on";
    pub const UPDATED: &'static str = "updated_on";
}

/// The link between a task and one of its tags.
pub struct TaskTagModel {
    pub task_id: Uuid,
    pub tag_id: Uuid,
}

impl TaskTagModel {
    pub const TASK_ID: &'static str = "task_id";
    pub const TAG_ID: &'static str = "tag_id";
}

/// The link between a project and one of its tags.
pub struct ProjectTagModel {
    pub project_id: Uuid,
    pub tag_id: Uuid,
}

impl ProjectTagModel {
    pub const PROJECT_ID: &'static str = "project_id";
    pub const TAG_ID: &'static str = "tag_id";
}

} // verus!
