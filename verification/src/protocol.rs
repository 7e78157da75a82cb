//! Commands and frames read from JSON text: the text is parsed by the JSON
//! parser, and what the parsed document means is decided here.

use crate::types::{
    grid_view, row_view, ColorData, ColorDataView, Command, PixelData, PixelDataView, Point,
};
use vstd::prelude::*;
use vstd::string::StringExecFns;

verus! {

/// A parsed JSON document.
#[verifier::external_type_specification]
#[verifier::external_body]
pub struct ExJsonValue(serde_json::Value);

/// The reason for which a text is not JSON.
#[verifier::external_type_specification]
#[verifier::external_body]
pub struct ExJsonError(serde_json::Error);

/// The document that the JSON parser makes of `text`, and none where `text`
/// is not one JSON value, with nothing but white space around it, or nests
/// deeper than the parser follows.
pub uninterp spec fn parsed_json(text: Seq<char>) -> Option<serde_json::Value>;

/// The member `key` of the object `document`, and none where `document` is no
/// object or has no such member.
pub uninterp spec fn member_of(document: serde_json::Value, key: Seq<char>) -> Option<
    serde_json::Value,
>;

/// The text of `value`, and none where `value` is no string.
pub uninterp spec fn text_of(value: serde_json::Value) -> Option<Seq<char>>;

/// The number `value`, and none where `value` is no number, or is negative,
/// or has a fraction or an exponent, or is above the largest `u64`.
pub uninterp spec fn unsigned_of(value: serde_json::Value) -> Option<u64>;

/// The items of `value`, and none where `value` is no array.
pub uninterp spec fn items_of(value: serde_json::Value) -> Option<Seq<serde_json::Value>>;

/// The number `value`, and none where `value` is no number, or has a
/// fraction or an exponent, or is outside the range of `i64`.
pub uninterp spec fn signed_of(value: serde_json::Value) -> Option<i64>;

/// `serde_json::from_str` for a `Value`: the document that the text holds, or
/// the parser's error.
#[verifier::external_body]
fn parse_json(text: &str) -> (document: Result<serde_json::Value, serde_json::Error>)
    ensures
        document is Ok <==> parsed_json(text@) is Some,
        document matches Ok(value) ==> parsed_json(text@) == Some(value),
{
    serde_json::from_str::<serde_json::Value>(text)
}

/// `Value::get` with a string: the member of an object under a key.
#[verifier::external_body]
fn json_member<'a>(document: &'a serde_json::Value, key: &str) -> (member: Option<
    &'a serde_json::Value,
>)
    ensures
        member is Some <==> member_of(*document, key@) is Some,
        member matches Some(value) ==> member_of(*document, key@) == Some(*value),
{
    document.get(key)
}

/// `Value::as_str`: the text of a JSON string.
#[verifier::external_body]
fn json_text<'a>(value: &'a serde_json::Value) -> (text: Option<&'a str>)
    ensures
        text is Some <==> text_of(*value) is Some,
        text matches Some(held) ==> text_of(*value) == Some(held@),
{
    value.as_str()
}

/// `Value::as_u64`: the value of a JSON number that is an integer from 0 to
/// the largest `u64`.
#[verifier::external_body]
fn json_unsigned(value: &serde_json::Value) -> (number: Option<u64>)
    ensures
        number == unsigned_of(*value),
{
    value.as_u64()
}

/// `Value::as_array`: the items of a JSON array.
#[verifier::external_body]
fn json_items<'a>(value: &'a serde_json::Value) -> (items: Option<&'a Vec<serde_json::Value>>)
    ensures
        items is Some <==> items_of(*value) is Some,
        items matches Some(held) ==> items_of(*value) == Some(held@),
{
    value.as_array()
}

/// `Value::as_i64`: the value of a JSON number that is an integer in the range
/// of `i64`.
#[verifier::external_body]
fn json_signed(value: &serde_json::Value) -> (number: Option<i64>)
    ensures
        number == signed_of(*value),
{
    value.as_i64()
}

/// `to_string` of a `serde_json::Error`: the parser's own words for the
/// diagnostic channel. Nothing is claimed of them.
#[verifier::external_body]
fn json_error_text(error: &serde_json::Error) -> (text: String) {
    error.to_string()
}

/// Why a line is no command.
#[derive(Debug)]
pub enum CommandError {
    /// The line is not JSON. It holds the parser's own words.
    Malformed(String),
    /// The line has no member `command` that is a string.
    MissingCommand,
    /// The member `command` names no command. It holds the name.
    UnknownCommand(String),
    /// The command needs a member `grid_size` that is an unsigned integer.
    MissingGridSize,
    /// The grid size is above the largest size of this machine.
    GridSizeTooLarge,
    /// The command needs a member `sample_rate` that is an unsigned integer.
    MissingSampleRate,
}

/// A `CommandError` without the parser's words, and with the unknown name as
/// a sequence of characters.
pub enum CommandErrorView {
    Malformed,
    MissingCommand,
    UnknownCommand(Seq<char>),
    MissingGridSize,
    GridSizeTooLarge,
    MissingSampleRate,
}

impl View for CommandError {
    type V = CommandErrorView;

    open spec fn view(&self) -> CommandErrorView {
        match self {
            CommandError::Malformed(_) => CommandErrorView::Malformed,
            CommandError::MissingCommand => CommandErrorView::MissingCommand,
            CommandError::UnknownCommand(name) => CommandErrorView::UnknownCommand(name@),
            CommandError::MissingGridSize => CommandErrorView::MissingGridSize,
            CommandError::GridSizeTooLarge => CommandErrorView::GridSizeTooLarge,
            CommandError::MissingSampleRate => CommandErrorView::MissingSampleRate,
        }
    }
}

impl CommandError {
    /// The error in words, for the diagnostic channel.
    pub fn message(&self) -> (text: String)
        ensures
            self is MissingCommand ==> text@ == "missing field `command`"@,
            self is MissingGridSize ==> text@ == "missing field `grid_size`"@,
            self is MissingSampleRate ==> text@ == "missing field `sample_rate`"@,
            self is GridSizeTooLarge ==> text@ == "grid_size is out of range"@,
            self matches CommandError::UnknownCommand(name) ==> text@ == "unknown command `"@
                + name@ + "`"@,
            self matches CommandError::Malformed(words) ==> text@ == words@,
    {
        match self {
            CommandError::Malformed(words) => words.clone(),
            CommandError::MissingCommand => "missing field `command`".to_owned(),
            CommandError::UnknownCommand(name) => {
                let mut text = "unknown command `".to_owned();
                text.append(name.as_str());
                text.append("`");
                text
            },
            CommandError::MissingGridSize => "missing field `grid_size`".to_owned(),
            CommandError::GridSizeTooLarge => "grid_size is out of range".to_owned(),
            CommandError::MissingSampleRate => "missing field `sample_rate`".to_owned(),
        }
    }
}

/// The outcome of reading a command, with the error by its view.
pub open spec fn outcome_view(outcome: Result<Command, CommandError>) -> Result<
    Command,
    CommandErrorView,
> {
    match outcome {
        Ok(command) => Ok(command),
        Err(error) => Err(error@),
    }
}

/// The grid size of a command from its member `grid_size`.
pub open spec fn grid_size_of(member: Option<u64>) -> Result<usize, CommandErrorView> {
    match member {
        None => Err(CommandErrorView::MissingGridSize),
        Some(size) => if size > usize::MAX {
            Err(CommandErrorView::GridSizeTooLarge)
        } else {
            Ok(size as usize)
        },
    }
}

/// The command that an object with these members is: `command` names it,
/// case and all; a start needs a grid size and a sample rate, a grid update
/// a grid size, a stop nothing; members that a command does not need are not
/// looked at.
pub open spec fn command_of(command: Option<Seq<char>>, grid_size: Option<u64>, sample_rate: Option<u64>) -> Result<
    Command,
    CommandErrorView,
> {
    match command {
        None => Err(CommandErrorView::MissingCommand),
        Some(name) => if name == "start"@ {
            match (grid_size_of(grid_size), sample_rate) {
                (Err(error), _) => Err(error),
                (Ok(_), None) => Err(CommandErrorView::MissingSampleRate),
                (Ok(size), Some(rate)) => Ok(Command::Start { grid_size: size, sample_rate: rate }),
            }
        } else if name == "update_grid"@ {
            match grid_size_of(grid_size) {
                Err(error) => Err(error),
                Ok(size) => Ok(Command::UpdateGrid { grid_size: size }),
            }
        } else if name == "stop"@ {
            Ok(Command::Stop)
        } else {
            Err(CommandErrorView::UnknownCommand(name))
        },
    }
}

fn grid_size_from(member: Option<u64>) -> (size: Result<usize, CommandError>)
    ensures
        match size {
            Ok(value) => grid_size_of(member) == Ok::<usize, CommandErrorView>(value),
            Err(error) => grid_size_of(member) == Err::<usize, CommandErrorView>(error@),
        },
{
    match member {
        None => Err(CommandError::MissingGridSize),
        Some(size) => {
            if size > usize::MAX as u64 {
                Err(CommandError::GridSizeTooLarge)
            } else {
                Ok(size as usize)
            }
        },
    }
}

/// The command that an object with these members is.
pub fn command_from_members(command: Option<&str>, grid_size: Option<u64>, sample_rate: Option<u64>) -> (outcome:
    Result<Command, CommandError>)
    ensures
        outcome_view(outcome) == command_of(
            match command {
                Some(name) => Some(name@),
                None => None,
            },
            grid_size,
            sample_rate,
        ),
{
    let name = match command {
        None => {
            return Err(CommandError::MissingCommand);
        },
        Some(name) => name.to_owned(),
    };
    if name == "start".to_owned() {
        let size = match grid_size_from(grid_size) {
            Err(error) => {
                return Err(error);
            },
            Ok(size) => size,
        };
        match sample_rate {
            None => Err(CommandError::MissingSampleRate),
            Some(rate) => Ok(Command::Start { grid_size: size, sample_rate: rate }),
        }
    } else if name == "update_grid".to_owned() {
        match grid_size_from(grid_size) {
            Err(error) => Err(error),
            Ok(size) => Ok(Command::UpdateGrid { grid_size: size }),
        }
    } else if name == "stop".to_owned() {
        Ok(Command::Stop)
    } else {
        Err(CommandError::UnknownCommand(name))
    }
}

/// The text of the member `key` of `document`, where it has one that is a
/// string.
pub open spec fn text_member(document: serde_json::Value, key: Seq<char>) -> Option<Seq<char>> {
    match member_of(document, key) {
        Some(value) => text_of(value),
        None => None,
    }
}

/// The number of the member `key` of `document`, where it has one that is an
/// unsigned integer.
pub open spec fn unsigned_member(document: serde_json::Value, key: Seq<char>) -> Option<u64> {
    match member_of(document, key) {
        Some(value) => unsigned_of(value),
        None => None,
    }
}

/// The command that the text of a line is.
pub open spec fn command_of_text(text: Seq<char>) -> Result<Command, CommandErrorView> {
    match parsed_json(text) {
        None => Err(CommandErrorView::Malformed),
        Some(document) => command_of(
            text_member(document, "command"@),
            unsigned_member(document, "grid_size"@),
            unsigned_member(document, "sample_rate"@),
        ),
    }
}

fn unsigned_member_of(document: &serde_json::Value, key: &str) -> (number: Option<u64>)
    ensures
        number == unsigned_member(*document, key@),
{
    match json_member(document, key) {
        Some(value) => json_unsigned(value),
        None => None,
    }
}

/// Reads a command from the text of one line: a JSON object whose member
/// `command` names the command.
pub fn parse_command(text: &str) -> (outcome: Result<Command, CommandError>)
    ensures
        outcome_view(outcome) == command_of_text(text@),
{
    let document = match parse_json(text) {
        Err(error) => {
            return Err(CommandError::Malformed(json_error_text(&error)));
        },
        Ok(document) => document,
    };
    let command = match json_member(&document, "command") {
        Some(value) => json_text(value),
        None => None,
    };
    let grid_size = unsigned_member_of(&document, "grid_size");
    let sample_rate = unsigned_member_of(&document, "sample_rate");
    command_from_members(command, grid_size, sample_rate)
}

/// Whether `c` is white space: one of the characters with Unicode's property
/// White_Space.
pub open spec fn is_white_space(c: char) -> bool {
    let code = c as u32;
    ||| 0x09 <= code <= 0x0d
    ||| code == 0x20
    ||| code == 0x85
    ||| code == 0xa0
    ||| code == 0x1680
    ||| 0x2000 <= code <= 0x200a
    ||| code == 0x2028
    ||| code == 0x2029
    ||| code == 0x202f
    ||| code == 0x205f
    ||| code == 0x3000
}

/// `text` without the white space at its start.
pub open spec fn trimmed_start(text: Seq<char>) -> Seq<char>
    decreases text.len(),
{
    if text.len() > 0 && is_white_space(text.first()) {
        trimmed_start(text.drop_first())
    } else {
        text
    }
}

/// `text` without the white space at its end.
pub open spec fn trimmed_end(text: Seq<char>) -> Seq<char>
    decreases text.len(),
{
    if text.len() > 0 && is_white_space(text.last()) {
        trimmed_end(text.drop_last())
    } else {
        text
    }
}

/// `text` without the white space at its start and at its end.
pub open spec fn trimmed(text: Seq<char>) -> Seq<char> {
    trimmed_end(trimmed_start(text))
}

/// `str::trim`: the text without the white space at its start and at its
/// end, white space being the characters with Unicode's property White_Space.
#[verifier::external_body]
fn trim_line<'a>(line: &'a str) -> (text: &'a str)
    ensures
        text@ == trimmed(line@),
{
    line.trim()
}

/// What a line of the input is.
#[derive(Debug)]
pub enum LineEvent {
    /// Nothing but white space: the line is passed over.
    Blank,
    /// A command.
    Received(Command),
    /// Not a command: the line is mentioned on the diagnostic channel and
    /// passed over.
    Rejected(CommandError),
}

/// A `LineEvent` with its error by its view.
pub enum LineEventView {
    Blank,
    Received(Command),
    Rejected(CommandErrorView),
}

impl View for LineEvent {
    type V = LineEventView;

    open spec fn view(&self) -> LineEventView {
        match self {
            LineEvent::Blank => LineEventView::Blank,
            LineEvent::Received(command) => LineEventView::Received(*command),
            LineEvent::Rejected(error) => LineEventView::Rejected(error@),
        }
    }
}

/// What the line `line` is: blank where it holds nothing but white space,
/// else the command that the rest is, or the reason for which it is none.
pub open spec fn event_of_line(line: Seq<char>) -> LineEventView {
    if trimmed(line).len() == 0 {
        LineEventView::Blank
    } else {
        match command_of_text(trimmed(line)) {
            Ok(command) => LineEventView::Received(command),
            Err(error) => LineEventView::Rejected(error),
        }
    }
}

/// Reads one line of the input, with or without the line's end.
pub fn read_line(line: &str) -> (event: LineEvent)
    ensures
        event@ == event_of_line(line@),
{
    let text = trim_line(line);
    if text.is_empty() {
        return LineEvent::Blank;
    }
    match parse_command(text) {
        Ok(command) => LineEvent::Received(command),
        Err(error) => LineEvent::Rejected(error),
    }
}

/// Why a text is no frame.
#[derive(Debug)]
pub enum FrameError {
    /// The text is not JSON. It holds the parser's own words.
    Malformed(String),
    /// There is no member `cursor` with integers `x` and `y` that fit 32 bits.
    InvalidCursor,
    /// There is no member `center` that is a colour.
    InvalidCenter,
    /// There is no member `grid` that is an array of arrays of colours.
    InvalidGrid,
    /// There is no member `timestamp` that is an unsigned integer.
    InvalidTimestamp,
}

/// A `FrameError` without the parser's words.
pub enum FrameErrorView {
    Malformed,
    InvalidCursor,
    InvalidCenter,
    InvalidGrid,
    InvalidTimestamp,
}

impl View for FrameError {
    type V = FrameErrorView;

    open spec fn view(&self) -> FrameErrorView {
        match self {
            FrameError::Malformed(_) => FrameErrorView::Malformed,
            FrameError::InvalidCursor => FrameErrorView::InvalidCursor,
            FrameError::InvalidCenter => FrameErrorView::InvalidCenter,
            FrameError::InvalidGrid => FrameErrorView::InvalidGrid,
            FrameError::InvalidTimestamp => FrameErrorView::InvalidTimestamp,
        }
    }
}

/// The channel value of the member `key` of `document`, where it has one that
/// is an integer from 0 to 255.
pub open spec fn channel_member(document: serde_json::Value, key: Seq<char>) -> Option<u8> {
    match unsigned_member(document, key) {
        Some(value) => if value <= 255 {
            Some(value as u8)
        } else {
            None
        },
        None => None,
    }
}

/// The coordinate of the member `key` of `document`, where it has one that is
/// an integer that fits 32 bits.
pub open spec fn coordinate_member(document: serde_json::Value, key: Seq<char>) -> Option<i32> {
    match member_of(document, key) {
        Some(value) => match signed_of(value) {
            Some(number) => if i32::MIN <= number <= i32::MAX {
                Some(number as i32)
            } else {
                None
            },
            None => None,
        },
        None => None,
    }
}

/// The colour that `value` is: an object with the channels `r`, `g` and `b`
/// and the text `hex`.
pub open spec fn color_of_json(value: serde_json::Value) -> Option<ColorDataView> {
    match (
        channel_member(value, "r"@),
        channel_member(value, "g"@),
        channel_member(value, "b"@),
        text_member(value, "hex"@),
    ) {
        (Some(r), Some(g), Some(b), Some(hex)) => Some(ColorDataView { r, g, b, hex }),
        _ => None,
    }
}

/// The row of colours that `value` is: an array whose items are all colours.
pub open spec fn row_of_json(value: serde_json::Value) -> Option<Seq<ColorDataView>> {
    match items_of(value) {
        Some(items) => if forall|i: int|
            0 <= i < items.len() ==> color_of_json(#[trigger] items[i]) is Some {
            Some(Seq::new(items.len(), |i: int| color_of_json(items[i])->Some_0))
        } else {
            None
        },
        None => None,
    }
}

/// The grid that `value` is: an array whose items are all rows of colours.
pub open spec fn grid_of_json(value: serde_json::Value) -> Option<Seq<Seq<ColorDataView>>> {
    match items_of(value) {
        Some(rows) => if forall|i: int|
            0 <= i < rows.len() ==> row_of_json(#[trigger] rows[i]) is Some {
            Some(Seq::new(rows.len(), |i: int| row_of_json(rows[i])->Some_0))
        } else {
            None
        },
        None => None,
    }
}

/// The frame that the JSON document `document` is.
pub open spec fn frame_of_document(document: serde_json::Value) -> Result<PixelDataView, FrameErrorView> {
    match member_of(document, "cursor"@) {
        None => Err(FrameErrorView::InvalidCursor),
        Some(cursor) => match (coordinate_member(cursor, "x"@), coordinate_member(cursor, "y"@)) {
            (Some(x), Some(y)) => match member_of(document, "center"@) {
                None => Err(FrameErrorView::InvalidCenter),
                Some(center) => match color_of_json(center) {
                    None => Err(FrameErrorView::InvalidCenter),
                    Some(center_color) => match member_of(document, "grid"@) {
                        None => Err(FrameErrorView::InvalidGrid),
                        Some(grid) => match grid_of_json(grid) {
                            None => Err(FrameErrorView::InvalidGrid),
                            Some(cells) => match unsigned_member(document, "timestamp"@) {
                                None => Err(FrameErrorView::InvalidTimestamp),
                                Some(timestamp) => Ok(
                                    PixelDataView {
                                        cursor: Point { x, y },
                                        center: center_color,
                                        grid: cells,
                                        timestamp,
                                    },
                                ),
                            },
                        },
                    },
                },
            },
            _ => Err(FrameErrorView::InvalidCursor),
        },
    }
}

/// The frame that a text is.
pub open spec fn frame_of_text(text: Seq<char>) -> Result<PixelDataView, FrameErrorView> {
    match parsed_json(text) {
        None => Err(FrameErrorView::Malformed),
        Some(document) => frame_of_document(document),
    }
}

fn channel_member_of(document: &serde_json::Value, key: &str) -> (channel: Option<u8>)
    ensures
        channel == channel_member(*document, key@),
{
    match unsigned_member_of(document, key) {
        Some(value) => {
            if value <= 255 {
                Some(value as u8)
            } else {
                None
            }
        },
        None => None,
    }
}

fn coordinate_member_of(document: &serde_json::Value, key: &str) -> (coordinate: Option<i32>)
    ensures
        coordinate == coordinate_member(*document, key@),
{
    match json_member(document, key) {
        Some(value) => match json_signed(value) {
            Some(number) => {
                if number >= i32::MIN as i64 && number <= i32::MAX as i64 {
                    Some(number as i32)
                } else {
                    None
                }
            },
            None => None,
        },
        None => None,
    }
}

fn color_from_json(value: &serde_json::Value) -> (color: Option<ColorData>)
    ensures
        color is Some <==> color_of_json(*value) is Some,
        color matches Some(read) ==> color_of_json(*value) == Some(read@),
{
    let r = channel_member_of(value, "r");
    let g = channel_member_of(value, "g");
    let b = channel_member_of(value, "b");
    let hex = match json_member(value, "hex") {
        Some(member) => json_text(member),
        None => None,
    };
    match (r, g, b, hex) {
        (Some(r), Some(g), Some(b), Some(hex)) => Some(ColorData { r, g, b, hex: hex.to_owned() }),
        _ => None,
    }
}

fn row_from_json(value: &serde_json::Value) -> (row: Option<Vec<ColorData>>)
    ensures
        row is Some <==> row_of_json(*value) is Some,
        row matches Some(read) ==> row_of_json(*value) == Some(row_view(read@)),
{
    let items = match json_items(value) {
        Some(items) => items,
        None => {
            return None;
        },
    };
    let mut row: Vec<ColorData> = Vec::new();
    let mut index: usize = 0;
    while index < items.len()
        invariant
            index <= items@.len(),
            items_of(*value) == Some(items@),
            row@.len() == index,
            forall|i: int|
                0 <= i < index ==> color_of_json(#[trigger] items@[i]) == Some(row@[i]@),
        decreases items@.len() - index,
    {
        match color_from_json(&items[index]) {
            Some(color) => {
                row.push(color);
            },
            None => {
                assert(color_of_json(items@[index as int]) is None);
                return None;
            },
        }
        index += 1;
    }
    assert(row_view(row@) =~= Seq::new(
        items@.len(),
        |i: int| color_of_json(items@[i])->Some_0,
    ));
    Some(row)
}

fn grid_from_json(value: &serde_json::Value) -> (grid: Option<Vec<Vec<ColorData>>>)
    ensures
        grid is Some <==> grid_of_json(*value) is Some,
        grid matches Some(read) ==> grid_of_json(*value) == Some(grid_view(read@)),
{
    let rows = match json_items(value) {
        Some(rows) => rows,
        None => {
            return None;
        },
    };
    let mut grid: Vec<Vec<ColorData>> = Vec::new();
    let mut index: usize = 0;
    while index < rows.len()
        invariant
            index <= rows@.len(),
            items_of(*value) == Some(rows@),
            grid@.len() == index,
            forall|i: int|
                0 <= i < index ==> row_of_json(#[trigger] rows@[i]) == Some(
                    row_view(grid@[i]@),
                ),
        decreases rows@.len() - index,
    {
        match row_from_json(&rows[index]) {
            Some(row) => {
                grid.push(row);
            },
            None => {
                assert(row_of_json(rows@[index as int]) is None);
                return None;
            },
        }
        index += 1;
    }
    assert(grid_view(grid@) =~= Seq::new(
        rows@.len(),
        |i: int| row_of_json(rows@[i])->Some_0,
    ));
    Some(grid)
}

/// The outcome of reading a frame, by its views.
pub open spec fn frame_outcome_view(outcome: Result<PixelData, FrameError>) -> Result<
    PixelDataView,
    FrameErrorView,
> {
    match outcome {
        Ok(frame) => Ok(frame@),
        Err(error) => Err(error@),
    }
}

impl PixelData {
    /// Reads a frame from its JSON text: an object with the members `cursor`,
    /// `center`, `grid` and `timestamp`. Other members are not looked at.
    pub fn from_json(text: &str) -> (outcome: Result<PixelData, FrameError>)
        ensures
            frame_outcome_view(outcome) == frame_of_text(text@),
    {
        let document = match parse_json(text) {
            Err(error) => {
                return Err(FrameError::Malformed(json_error_text(&error)));
            },
            Ok(document) => document,
        };
        let cursor = match json_member(&document, "cursor") {
            None => {
                return Err(FrameError::InvalidCursor);
            },
            Some(cursor) => match (
                coordinate_member_of(cursor, "x"),
                coordinate_member_of(cursor, "y"),
            ) {
                (Some(x), Some(y)) => Point { x, y },
                _ => {
                    return Err(FrameError::InvalidCursor);
                },
            },
        };
        let center = match json_member(&document, "center") {
            None => {
                return Err(FrameError::InvalidCenter);
            },
            Some(center) => match color_from_json(center) {
                None => {
                    return Err(FrameError::InvalidCenter);
                },
                Some(color) => color,
            },
        };
        let grid = match json_member(&document, "grid") {
            None => {
                return Err(FrameError::InvalidGrid);
            },
            Some(grid) => match grid_from_json(grid) {
                None => {
                    return Err(FrameError::InvalidGrid);
                },
                Some(cells) => cells,
            },
        };
        let timestamp = match unsigned_member_of(&document, "timestamp") {
            None => {
                return Err(FrameError::InvalidTimestamp);
            },
            Some(timestamp) => timestamp,
        };
        Ok(PixelData { cursor, center, grid, timestamp })
    }
}

} // verus!
