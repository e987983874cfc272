//! Messages over standard input and output, one JSON text per line.
use vstd::prelude::*;

use crate::json::{json_text, plain_to_depth};
use crate::message::{
    message_in_text, message_json, message_text, no_null_member, one_line, parse_message,
    JSONRPCMessage,
};

verus! {

/// What can happen to the task that reads standard input.
pub enum StdinEvent {
    /// A line was read.
    Line(String),
    /// The input ended or could not be read.
    Ended,
    /// The message was handed to the processor.
    Accepted,
    /// The processor takes no more messages.
    Refused,
}

/// What the task that reads standard input does.
pub enum StdinAction {
    /// It hands a message to the processor.
    Forward(JSONRPCMessage),
    /// It reads the next line.
    ReadLine,
    /// It stops.
    Stop,
}

/// What the task that reads standard input does after an event. A line that is no message is
/// passed over.
pub fn stdin_action(event: &StdinEvent) -> (r: StdinAction)
    ensures
        match event {
            StdinEvent::Line(line) => match message_in_text(line@) {
                Some(message) => r is Forward && r->Forward_0@ == message,
                None => r is ReadLine,
            },
            StdinEvent::Ended => r is Stop,
            StdinEvent::Accepted => r is ReadLine,
            StdinEvent::Refused => r is Stop,
        },
{
    match event {
        StdinEvent::Line(line) => match parse_message(line.as_str()) {
            Some(message) => StdinAction::Forward(message),
            None => StdinAction::ReadLine,
        },
        StdinEvent::Ended => StdinAction::Stop,
        StdinEvent::Accepted => StdinAction::ReadLine,
        StdinEvent::Refused => StdinAction::Stop,
    }
}

/// The line that carries a message.
pub fn outgoing_line(message: &JSONRPCMessage) -> (r: String)
    ensures
        r@ == line_of(json_text(message_json(message@))),
        one_line(json_text(message_json(message@))),
        no_null_member(message@) && plain_to_depth(message_json(message@), 127)
            ==> message_in_text(json_text(message_json(message@))) == Some(message@),
{
    message_text(message).concat("\n")
}

/// What can happen to the task that writes standard output.
pub enum StdoutEvent {
    /// The processor has a message for the client.
    Message(JSONRPCMessage),
    /// A line was written.
    Written,
    /// A line could not be written.
    Failed,
    /// The processor has no more messages.
    Closed,
}

/// What the task that writes standard output does.
pub enum StdoutAction {
    /// It writes a line.
    Write(String),
    /// It waits for the next message.
    Receive,
    /// It stops.
    Stop,
}

/// What the task that writes standard output does after an event.
pub fn stdout_action(event: &StdoutEvent) -> (r: StdoutAction)
    ensures
        match event {
            StdoutEvent::Message(message) => {
                let text = json_text(message_json(message@));
                &&& r is Write
                &&& r->Write_0@ == line_of(text)
                &&& one_line(text)
                &&& no_null_member(message@) && plain_to_depth(message_json(message@), 127)
                    ==> message_in_text(text) == Some(message@)
            },
            StdoutEvent::Written => r is Receive,
            StdoutEvent::Failed => r is Stop,
            StdoutEvent::Closed => r is Stop,
        },
{
    match event {
        StdoutEvent::Message(message) => StdoutAction::Write(outgoing_line(message)),
        StdoutEvent::Written => StdoutAction::Receive,
        StdoutEvent::Failed => StdoutAction::Stop,
        StdoutEvent::Closed => StdoutAction::Stop,
    }
}

/// A text with the line break that ends it.
pub open spec fn line_of(text: Seq<char>) -> Seq<char> {
    text + "\n"@
}

/// Lines one after the other.
pub open spec fn joined_lines(texts: Seq<Seq<char>>) -> Seq<char>
    decreases texts.len(),
{
    if texts.len() == 0 {
        Seq::empty()
    } else {
        line_of(texts[0]) + joined_lines(texts.drop_first())
    }
}

/// The position of the first line break, or the length where there is none.
pub open spec fn line_end(text: Seq<char>) -> nat
    decreases text.len(),
{
    if text.len() == 0 || text[0] == '\n' {
        0
    } else {
        1 + line_end(text.drop_first())
    }
}

/// The lines of a text; what follows the last line break is a line too where it is not empty.
pub open spec fn lines_in(text: Seq<char>) -> Seq<Seq<char>>
    decreases text.len(),
{
    if text.len() == 0 {
        Seq::empty()
    } else if line_end(text) >= text.len() {
        seq![text]
    } else {
        seq![text.take(line_end(text) as int)] + lines_in(text.skip((line_end(text) + 1) as int))
    }
}

proof fn lemma_line_end(text: Seq<char>, rest: Seq<char>)
    requires
        one_line(text),
    ensures
        line_end(line_of(text) + rest) == text.len(),
    decreases text.len(),
{
    reveal_strlit("\n");
    let whole = line_of(text) + rest;
    if text.len() == 0 {
        assert(whole[0] == '\n');
    } else {
        assert(whole[0] == text[0]);
        assert(whole.drop_first() =~= line_of(text.drop_first()) + rest);
        lemma_line_end(text.drop_first(), rest);
    }
}

/// What is written one line per message is read back line by line: no message is split over two
/// lines or merged with another.
pub proof fn law_lines_read_back(texts: Seq<Seq<char>>)
    requires
        forall|i: int| 0 <= i < texts.len() ==> one_line(#[trigger] texts[i]),
    ensures
        lines_in(joined_lines(texts)) == texts,
    decreases texts.len(),
{
    if texts.len() > 0 {
        let rest = joined_lines(texts.drop_first());
        let whole = joined_lines(texts);
        assert(one_line(texts[0]));
        lemma_line_end(texts[0], rest);
        reveal_strlit("\n");
        assert(whole.take(texts[0].len() as int) =~= texts[0]);
        assert(whole.skip((texts[0].len() + 1) as int) =~= rest);
        assert forall|i: int| 0 <= i < texts.drop_first().len() implies one_line(
            #[trigger] texts.drop_first()[i],
        ) by {
            assert(texts.drop_first()[i] == texts[i + 1]);
        }
        law_lines_read_back(texts.drop_first());
        assert(seq![texts[0]] + texts.drop_first() =~= texts);
    }
}

/// A line is its text with one line break behind it, and a text is one line exactly where it holds
/// no control character.
pub proof fn law_line(text: Seq<char>)
    ensures
        line_of(text) == text.push('\n'),
        one_line(text) <==> forall|i: int|
            0 <= i < text.len() ==> (#[trigger] text[i]) as int >= 32,
{
    reveal_strlit("\n");
    assert(line_of(text) =~= text.push('\n'));
}

} // verus!
