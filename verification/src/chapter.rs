//! Chapters, and how the tool's report is mapped to them.
//!
//! The report is a JSON document of the shape
//!
//! ```text
//! { "chapters": [ { "start_time": "12.000000", "end_time": "45.000000",
//!                   "tags": { "title": "Intro" } }, ... ] }
//! ```
//!
//! Every field of an element may be missing or of another kind; each then
//! falls back by a rule of its own, and no element makes the mapping fail.

use crate::bytes::decode;
use crate::error::ProbeError;
use crate::json::{
    json_of, json_parsed, member, parse_value, value_items, value_member, value_text, Json,
};
use crate::seconds::{
    is_float_text, is_number, lemma_fixed_point_is_float, lemma_number_head, zero_text, Seconds,
};
use crate::text::{decimal, lemma_decimal_injective, push_decimal};
use vstd::prelude::*;
use vstd::string::*;
use vstd::utf8::{decode_utf8, valid_utf8};

verus! {

/// A named stretch of a media file.
#[derive(Debug, PartialEq, Eq)]
pub struct Chapter {
    /// `chapter-` and the chapter's position in the report, from zero.
    pub id: String,
    /// The chapter's title, or `Chapter ` and its position, from one.
    pub title: String,
    /// Where the chapter starts.
    pub start: Seconds,
    /// Where the chapter ends, if the report says so.
    pub end: Option<Seconds>,
}

/// A [`Chapter`] with its texts as sequences.
pub struct ChapterView {
    pub id: Seq<char>,
    pub title: Seq<char>,
    pub start: Seq<char>,
    pub end: Option<Seq<char>>,
}

impl View for Chapter {
    type V = ChapterView;

    open spec fn view(&self) -> ChapterView {
        ChapterView {
            id: self.id@,
            title: self.title@,
            start: self.start@,
            end: match self.end {
                Some(end) => Some(end@),
                None => None,
            },
        }
    }
}

impl DeepView for Chapter {
    type V = ChapterView;

    open spec fn deep_view(&self) -> ChapterView {
        self@
    }
}

impl Clone for Chapter {
    fn clone(&self) -> (r: Self)
        ensures
            r@ == self@,
    {
        Chapter {
            id: self.id.clone(),
            title: self.title.clone(),
            start: self.start.clone(),
            end: match &self.end {
                Some(end) => Some(end.clone()),
                None => None,
            },
        }
    }
}

/// The time that a field of the report gives: its text where the field is
/// a string that writes a number, and nothing otherwise.
pub open spec fn time_of(field: Json) -> Option<Seq<char>> {
    match field {
        Json::Text(text) => if is_float_text(text) {
            Some(text)
        } else {
            None
        },
        _ => None,
    }
}

/// The identifier of the chapter at `index`, counted from zero.
pub open spec fn id_of(index: nat) -> Seq<char> {
    "chapter-"@ + decimal(index)
}

/// The title of a chapter at `index`, counted from zero, that has none of
/// its own.
pub open spec fn placeholder_title(index: nat) -> Seq<char> {
    "Chapter "@ + decimal(index + 1)
}

/// The chapter that the element at `index` of the report describes.
pub open spec fn chapter_of(element: Json, index: nat) -> ChapterView {
    ChapterView {
        id: id_of(index),
        title: match member(member(element, "tags"@), "title"@) {
            Json::Text(title) => title,
            _ => placeholder_title(index),
        },
        start: match time_of(member(element, "start_time"@)) {
            Some(start) => start,
            None => zero_text(),
        },
        end: time_of(member(element, "end_time"@)),
    }
}

/// The chapters that a report describes: one for each element of its
/// `chapters` array, in the array's order, and none where it has no such
/// array.
pub open spec fn chapters_of(report: Json) -> Seq<ChapterView> {
    match member(report, "chapters"@) {
        Json::Array(elements) => Seq::new(
            elements.len(),
            |index: int| chapter_of(elements[index], index as nat),
        ),
        _ => Seq::empty(),
    }
}

/// What the tool's output amounts to.
pub enum Reading {
    /// A report, with the chapters it describes.
    Chapters(Seq<ChapterView>),
    /// Bytes that are not UTF-8.
    NotText,
    /// Text that is not JSON.
    NotJson,
}

/// What the bytes of the tool's output amount to.
pub open spec fn reading_of(output: Seq<u8>) -> Reading {
    if !valid_utf8(output) {
        Reading::NotText
    } else {
        match json_parsed(decode_utf8(output)) {
            Some(report) => Reading::Chapters(chapters_of(report)),
            None => Reading::NotJson,
        }
    }
}

/// A report without a `chapters` array, or with an empty one, describes no
/// chapter.
pub proof fn law_no_chapters_no_chapter(report: Json)
    requires
        match member(report, "chapters"@) {
            Json::Array(elements) => elements.len() == 0,
            _ => true,
        },
    ensures
        chapters_of(report) == Seq::<ChapterView>::empty(),
{
}

/// Output that is a JSON document without chapters reads as no chapters,
/// and not as an error.
pub proof fn law_no_chapters_is_no_error(output: Seq<u8>, report: Json)
    requires
        valid_utf8(output),
        json_parsed(decode_utf8(output)) == Some(report),
        match member(report, "chapters"@) {
            Json::Array(elements) => elements.len() == 0,
            _ => true,
        },
    ensures
        reading_of(output) == Reading::Chapters(Seq::empty()),
{
    law_no_chapters_no_chapter(report);
}

/// The report's order is kept: there is one chapter for each element of the
/// `chapters` array, and the chapter at each position is that of the
/// element at the same position.
pub proof fn law_order_is_kept(report: Json, elements: Seq<Json>, index: int)
    requires
        member(report, "chapters"@) == Json::Array(elements),
        0 <= index < elements.len(),
    ensures
        chapters_of(report).len() == elements.len(),
        chapters_of(report)[index] == chapter_of(elements[index], index as nat),
{
}

/// A chapter starts at the number that its `start_time` writes.
pub proof fn law_start_is_the_number_given(element: Json, index: nat, time: Seq<char>)
    requires
        member(element, "start_time"@) == Json::Text(time),
        is_float_text(time),
    ensures
        chapter_of(element, index).start == time,
{
}

/// A chapter whose `start_time` is the text `12.5` starts at `12.5`.
pub proof fn law_start_twelve_and_a_half(element: Json, index: nat)
    requires
        member(element, "start_time"@) == Json::Text(seq!['1', '2', '.', '5']),
    ensures
        chapter_of(element, index).start == seq!['1', '2', '.', '5'],
{
    lemma_fixed_point_is_float(seq!['1', '2'], seq!['5']);
    assert(seq!['1', '2', '.', '5'] =~= seq!['1', '2'] + seq!['.'] + seq!['5']);
}

/// A chapter starts at zero where its `start_time` is missing, is no
/// string, or writes no number.
pub proof fn law_start_defaults_to_zero(element: Json, index: nat)
    requires
        match member(element, "start_time"@) {
            Json::Text(time) => !is_float_text(time),
            _ => true,
        },
    ensures
        chapter_of(element, index).start == zero_text(),
{
}

/// A chapter has no end where its `end_time` is missing, is no string, or
/// writes no number; zero is not put in its place.
pub proof fn law_end_stays_unset(element: Json, index: nat)
    requires
        match member(element, "end_time"@) {
            Json::Text(time) => !is_float_text(time),
            _ => true,
        },
    ensures
        chapter_of(element, index).end is None,
{
}

/// The text `not-a-number` writes no number, so a chapter with that
/// `end_time` has no end.
pub proof fn law_end_not_a_number(element: Json, index: nat)
    requires
        member(element, "end_time"@) == Json::Text("not-a-number"@),
    ensures
        chapter_of(element, index).end is None,
{
    reveal_strlit("not-a-number");
    let time = "not-a-number"@;
    if is_number(time) {
        lemma_number_head(time);
    }
}

/// A chapter without a title of its own is called `Chapter ` and its
/// position, counted from one.
pub proof fn law_untitled_chapter_is_numbered(element: Json, index: nat)
    requires
        !(member(member(element, "tags"@), "title"@) is Text),
    ensures
        chapter_of(element, index).title == "Chapter "@ + decimal(index + 1),
{
}

/// A chapter with a title of its own keeps it as it is, even if empty.
pub proof fn law_title_is_kept(element: Json, index: nat, title: Seq<char>)
    requires
        member(member(element, "tags"@), "title"@) == Json::Text(title),
    ensures
        chapter_of(element, index).title == title,
{
}

/// The identifier of a chapter is `chapter-` and its position, counted
/// from zero, whatever the element holds.
pub proof fn law_id_is_the_position(element: Json, index: nat)
    ensures
        chapter_of(element, index).id == "chapter-"@ + decimal(index),
{
}

/// A report of three chapters gives them the identifiers `chapter-0`,
/// `chapter-1` and `chapter-2`, in this order, whatever its elements hold.
pub proof fn law_ids_of_three_chapters(report: Json, elements: Seq<Json>)
    requires
        member(report, "chapters"@) == Json::Array(elements),
        elements.len() == 3,
    ensures
        chapters_of(report).len() == 3,
        chapters_of(report)[0].id == "chapter-0"@,
        chapters_of(report)[1].id == "chapter-1"@,
        chapters_of(report)[2].id == "chapter-2"@,
{
    reveal_strlit("chapter-");
    reveal_strlit("chapter-0");
    reveal_strlit("chapter-1");
    reveal_strlit("chapter-2");
    assert(id_of(0) =~= "chapter-0"@);
    assert(id_of(1) =~= "chapter-1"@);
    assert(id_of(2) =~= "chapter-2"@);
}

/// Chapters at different positions have different identifiers.
pub proof fn law_ids_are_distinct(report: Json, first: int, second: int)
    requires
        0 <= first < second < chapters_of(report).len(),
    ensures
        chapters_of(report)[first].id != chapters_of(report)[second].id,
{
    if chapters_of(report)[first].id == chapters_of(report)[second].id {
        lemma_id_is_injective(first as nat, second as nat);
    }
}

/// Different positions have different identifiers.
pub proof fn lemma_id_is_injective(first: nat, second: nat)
    requires
        id_of(first) == id_of(second),
    ensures
        first == second,
{
    let prefix = "chapter-"@;
    assert(id_of(first).skip(prefix.len() as int) =~= decimal(first));
    assert(id_of(second).skip(prefix.len() as int) =~= decimal(second));
    lemma_decimal_injective(first, second);
}

fn map_time(field: &serde_json::Value) -> (r: Option<Seconds>)
    ensures
        match r {
            Some(time) => time_of(json_of(*field)) == Some(time@),
            None => time_of(json_of(*field)) is None,
        },
{
    match value_text(field) {
        Some(text) => Seconds::parse(text),
        None => None,
    }
}

/// Maps one element of the report, which stands at `index` in it.
pub fn map_chapter(element: &serde_json::Value, index: usize) -> (chapter: Chapter)
    ensures
        chapter@ == chapter_of(json_of(*element), index as nat),
{
    let mut id = "chapter-".to_owned();
    push_decimal(&mut id, index as u128);
    let title = match value_text(value_member(value_member(element, "tags"), "title")) {
        Some(title) => title.to_owned(),
        None => {
            let mut title = "Chapter ".to_owned();
            push_decimal(&mut title, index as u128 + 1);
            title
        },
    };
    let start = match map_time(value_member(element, "start_time")) {
        Some(start) => start,
        None => Seconds::zero(),
    };
    let end = map_time(value_member(element, "end_time"));
    Chapter { id, title, start, end }
}

/// Maps a report to its chapters.
pub fn map_chapters(report: &serde_json::Value) -> (chapters: Vec<Chapter>)
    ensures
        chapters.deep_view() == chapters_of(json_of(*report)),
{
    let mut chapters: Vec<Chapter> = Vec::new();
    match value_items(value_member(report, "chapters")) {
        Some(elements) => {
            let mut index: usize = 0;
            while index < elements.len()
                invariant
                    index <= elements.len(),
                    chapters.len() == index,
                    forall|i: int|
                        0 <= i < index ==> (#[trigger] chapters[i])@ == chapter_of(
                            json_of(elements[i]),
                            i as nat,
                        ),
                decreases elements.len() - index,
            {
                let chapter = map_chapter(&elements[index], index);
                chapters.push(chapter);
                index = index + 1;
            }
        },
        None => {
        },
    }
    chapters
}

/// Reads the tool's output: decodes it, parses it, and maps the report.
///
/// The result is `Ok` exactly where the output is UTF-8 and JSON. The
/// detail of an error is what the decoder or the parser said.
pub fn parse_chapters(output: Vec<u8>) -> (r: Result<Vec<Chapter>, ProbeError>)
    ensures
        match r {
            Ok(chapters) => reading_of(output@) == Reading::Chapters(chapters.deep_view()),
            Err(ProbeError::Encoding { .. }) => reading_of(output@) is NotText,
            Err(ProbeError::Parse { .. }) => reading_of(output@) is NotJson,
            Err(_) => false,
        },
{
    let text = match decode(output) {
        Ok(text) => text,
        Err(error) => {
            return Err(ProbeError::Encoding { detail: error.to_string() });
        },
    };
    match parse_value(text.as_str()) {
        Ok(report) => Ok(map_chapters(&report)),
        Err(error) => Err(ProbeError::Parse { detail: error.to_string() }),
    }
}

} // verus!
