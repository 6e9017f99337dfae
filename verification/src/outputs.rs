//! The display outputs of the computer, one of which the television is
//! plugged into. Whether that output is connected is how the television is
//! known to be on.

use vstd::prelude::*;
use vstd::string::*;
use crate::text::same_text;

verus! {

/// Whether something is plugged into an output.
#[derive(Debug, PartialEq, Eq)]
pub enum Status {
    Connected,
    Disconnected,
    /// The system reported this text, which is neither of the two it should be.
    Unknown(String),
}

/// A display output and its status.
#[derive(Debug, PartialEq, Eq)]
pub struct Output {
    pub name: String,
    pub status: Status,
}

/// What a [`Status`] holds.
pub enum StatusView {
    Connected,
    Disconnected,
    Unknown(Seq<char>),
}

/// What an [`Output`] holds.
pub struct OutputView {
    pub name: Seq<char>,
    pub status: StatusView,
}

impl View for Status {
    type V = StatusView;

    open spec fn view(&self) -> StatusView {
        match self {
            Status::Connected => StatusView::Connected,
            Status::Disconnected => StatusView::Disconnected,
            Status::Unknown(text) => StatusView::Unknown(text@),
        }
    }
}

impl View for Output {
    type V = OutputView;

    open spec fn view(&self) -> OutputView {
        OutputView { name: self.name@, status: self.status@ }
    }
}

impl Clone for Status {
    fn clone(&self) -> (copy: Status)
        ensures
            copy@ == self@,
    {
        match self {
            Status::Connected => Status::Connected,
            Status::Disconnected => Status::Disconnected,
            Status::Unknown(text) => Status::Unknown(text.clone()),
        }
    }
}

impl Clone for Output {
    fn clone(&self) -> (copy: Output)
        ensures
            copy@ == self@,
    {
        Output { name: self.name.clone(), status: self.status.clone() }
    }
}

/// Whether `c` is white space: one of the characters that Unicode gives the
/// property `White_Space`.
pub open spec fn is_white_space(c: char) -> bool {
    let n = c as u32;
    ||| 0x09 <= n <= 0x0d
    ||| n == 0x20
    ||| n == 0x85
    ||| n == 0xa0
    ||| n == 0x1680
    ||| 0x2000 <= n <= 0x200a
    ||| n == 0x2028
    ||| n == 0x2029
    ||| n == 0x202f
    ||| n == 0x205f
    ||| n == 0x3000
}

/// A text without the white space at its start.
pub open spec fn trimmed_start(text: Seq<char>) -> Seq<char>
    decreases text.len(),
{
    if text.len() > 0 && is_white_space(text.first()) {
        trimmed_start(text.drop_first())
    } else {
        text
    }
}

/// A text without the white space at its end.
pub open spec fn trimmed_end(text: Seq<char>) -> Seq<char>
    decreases text.len(),
{
    if text.len() > 0 && is_white_space(text.last()) {
        trimmed_end(text.drop_last())
    } else {
        text
    }
}

/// What is left of a text when the white space at both of its ends is taken
/// away.
pub open spec fn trimmed(text: Seq<char>) -> Seq<char> {
    trimmed_end(trimmed_start(text))
}

/// `str::trim`: the part of `text` between its leading and its trailing
/// white space, where white space is what Unicode's property `White_Space`
/// says it is.
#[verifier::external_body]
fn trim(text: &str) -> (inner: &str)
    ensures
        inner@ == trimmed(text@),
{
    text.trim()
}

impl StatusView {
    /// The status that a text stands for once the white space round it is
    /// gone: `connected` and `disconnected` stand for themselves, and any
    /// other text is kept as it is.
    pub open spec fn parse(text: Seq<char>) -> StatusView {
        if text == "connected"@ {
            StatusView::Connected
        } else if text == "disconnected"@ {
            StatusView::Disconnected
        } else {
            StatusView::Unknown(text)
        }
    }

    /// The text that stands for a status.
    pub open spec fn text(self) -> Seq<char> {
        match self {
            StatusView::Connected => "connected"@,
            StatusView::Disconnected => "disconnected"@,
            StatusView::Unknown(text) => text,
        }
    }
}

impl Status {
    /// The status that `text` stands for, where `text` has no white space
    /// round it.
    pub fn from_trimmed(text: &str) -> (status: Status)
        ensures
            status@ == StatusView::parse(text@),
    {
        if same_text(text, "connected") {
            Status::Connected
        } else if same_text(text, "disconnected") {
            Status::Disconnected
        } else {
            Status::Unknown(String::from_str(text))
        }
    }

    /// The status that `text` stands for, as the system writes it: with a
    /// line end after it.
    pub fn from_text(text: &str) -> (status: Status)
        ensures
            status@ == StatusView::parse(trimmed(text@)),
    {
        Status::from_trimmed(trim(text))
    }

    /// The text that stands for this status.
    pub fn to_string(&self) -> (text: String)
        ensures
            text@ == self@.text(),
    {
        match self {
            Status::Connected => String::from_str("connected"),
            Status::Disconnected => String::from_str("disconnected"),
            Status::Unknown(text) => text.clone(),
        }
    }
}

/// What each of `outputs` holds.
pub open spec fn views(outputs: Seq<Output>) -> Seq<OutputView> {
    outputs.map_values(|output: Output| output@)
}

/// Whether something is plugged into `output`.
pub open spec fn is_plugged(output: OutputView) -> bool {
    output.status is Connected
}

/// Those of `outputs` that something is plugged into, in their order.
pub open spec fn spec_connected(outputs: Seq<OutputView>) -> Seq<OutputView> {
    outputs.filter(|output: OutputView| is_plugged(output))
}

/// Whether one of `outputs` is called `name`.
pub open spec fn spec_exists(outputs: Seq<OutputView>, name: Seq<char>) -> bool {
    exists|i: int| 0 <= i < outputs.len() && (#[trigger] outputs[i]).name == name
}

/// Whether one of `outputs` is called `name` and has something plugged into
/// it.
pub open spec fn spec_is_connected(outputs: Seq<OutputView>, name: Seq<char>) -> bool {
    exists|i: int|
        0 <= i < outputs.len() && (#[trigger] outputs[i]).name == name && is_plugged(outputs[i])
}

/// The outputs that the system lists: for each entry, which is the name of
/// an output and the text of its status file, the output with that name and
/// the status that the text stands for.
pub fn all(entries: &Vec<(String, String)>) -> (outputs: Vec<Output>)
    ensures
        outputs@.len() == entries@.len(),
        forall|i: int|
            0 <= i < entries@.len() ==> (#[trigger] outputs@[i])@ == (OutputView {
                name: entries@[i].0@,
                status: StatusView::parse(trimmed(entries@[i].1@)),
            }),
{
    let mut outputs: Vec<Output> = Vec::new();
    let n: usize = entries.len();
    let mut i: usize = 0;
    while i < n
        invariant
            n == entries@.len(),
            i <= n,
            outputs@.len() == i,
            forall|j: int|
                0 <= j < i ==> (#[trigger] outputs@[j])@ == (OutputView {
                    name: entries@[j].0@,
                    status: StatusView::parse(trimmed(entries@[j].1@)),
                }),
        decreases n - i,
    {
        let name = entries[i].0.clone();
        let status = Status::from_text(entries[i].1.as_str());
        outputs.push(Output { name, status });
        i += 1;
    }
    outputs
}

/// Those of `outputs` that something is plugged into, in their order.
pub fn connected(outputs: &Vec<Output>) -> (plugged: Vec<Output>)
    ensures
        views(plugged@) == spec_connected(views(outputs@)),
{
    let mut plugged: Vec<Output> = Vec::new();
    let n: usize = outputs.len();
    let mut i: usize = 0;
    proof {
        reveal(Seq::filter);
    }
    while i < n
        invariant
            n == outputs@.len(),
            i <= n,
            views(plugged@) == spec_connected(views(outputs@).take(i as int)),
        decreases n - i,
    {
        let is_plugged = match outputs[i].status {
            Status::Connected => true,
            _ => false,
        };
        if is_plugged {
            plugged.push(outputs[i].clone());
        }
        proof {
            reveal(Seq::filter);
            let upto = views(outputs@).take(i + 1);
            assert(upto.drop_last() =~= views(outputs@).take(i as int));
        }
        i += 1;
    }
    assert(views(outputs@).take(n as int) =~= views(outputs@));
    plugged
}

/// Whether one of `outputs` is called `name`.
pub fn output_exists(outputs: &Vec<Output>, name: &str) -> (found: bool)
    ensures
        found == spec_exists(views(outputs@), name@),
{
    let n: usize = outputs.len();
    let mut i: usize = 0;
    while i < n
        invariant
            n == outputs@.len(),
            i <= n,
            forall|j: int| 0 <= j < i ==> (#[trigger] views(outputs@)[j]).name != name@,
        decreases n - i,
    {
        if same_text(outputs[i].name.as_str(), name) {
            assert(views(outputs@)[i as int].name == name@);
            return true;
        }
        i += 1;
    }
    false
}

/// Whether the output called `name` has something plugged into it. An output
/// with any other status, one that is not understood too, has not.
pub fn is_connected(outputs: &Vec<Output>, name: &str) -> (found: bool)
    ensures
        found == spec_is_connected(views(outputs@), name@),
{
    let n: usize = outputs.len();
    let mut i: usize = 0;
    while i < n
        invariant
            n == outputs@.len(),
            i <= n,
            forall|j: int|
                0 <= j < i ==> !((#[trigger] views(outputs@)[j]).name == name@ && is_plugged(
                    views(outputs@)[j],
                )),
        decreases n - i,
    {
        let is_plugged = match outputs[i].status {
            Status::Connected => true,
            _ => false,
        };
        if is_plugged && same_text(outputs[i].name.as_str(), name) {
            assert(views(outputs@)[i as int].name == name@);
            return true;
        }
        i += 1;
    }
    false
}

/// The colour that a status is listed in.
#[derive(Debug, Clone, Copy, PartialEq, Eq)]
pub enum Color {
    Green,
    Red,
    Yellow,
}

/// One line of the list of outputs: the name, and the status with its colour.
#[derive(Debug, PartialEq, Eq)]
pub struct Listing {
    pub name: String,
    pub status: String,
    pub color: Color,
}

/// The colour for a status: green for connected, red for disconnected,
/// yellow for anything else.
pub open spec fn status_color(status: StatusView) -> Color {
    match status {
        StatusView::Connected => Color::Green,
        StatusView::Disconnected => Color::Red,
        StatusView::Unknown(_) => Color::Yellow,
    }
}

/// The list of outputs to print: one line for each output, in their order.
pub fn list(outputs: &Vec<Output>) -> (lines: Vec<Listing>)
    ensures
        lines@.len() == outputs@.len(),
        forall|i: int|
            0 <= i < outputs@.len() ==> {
                &&& (#[trigger] lines@[i]).name@ == outputs@[i]@.name
                &&& lines@[i].status@ == outputs@[i]@.status.text()
                &&& lines@[i].color == status_color(outputs@[i]@.status)
            },
{
    let mut lines: Vec<Listing> = Vec::new();
    let n: usize = outputs.len();
    let mut i: usize = 0;
    while i < n
        invariant
            n == outputs@.len(),
            i <= n,
            lines@.len() == i,
            forall|j: int|
                0 <= j < i ==> {
                    &&& (#[trigger] lines@[j]).name@ == outputs@[j]@.name
                    &&& lines@[j].status@ == outputs@[j]@.status.text()
                    &&& lines@[j].color == status_color(outputs@[j]@.status)
                },
        decreases n - i,
    {
        let color = match outputs[i].status {
            Status::Connected => Color::Green,
            Status::Disconnected => Color::Red,
            Status::Unknown(_) => Color::Yellow,
        };
        lines.push(
            Listing { name: outputs[i].name.clone(), status: outputs[i].status.to_string(), color },
        );
        i += 1;
    }
    lines
}

} // verus!
