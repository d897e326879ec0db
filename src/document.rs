//! The chat document that an error event is rendered into, and the local
//! log line.

use vstd::prelude::*;
use crate::event::{ErrorEvent, EventModel};
use crate::frames::{FrameModel, StackFrame, frames_model};

verus! {

/// A text object: its kind (`plain_text` or `mrkdwn`), its text, and whether
/// emoji codes are rendered, where that is said.
pub struct TextObject {
    pub kind: String,
    pub text: String,
    pub emoji: Option<bool>,
}

/// A block of the document: its kind (`header` or `section`), with a text,
/// side-by-side fields, or both.
pub struct Block {
    pub kind: String,
    pub text: Option<TextObject>,
    pub fields: Vec<TextObject>,
}

/// A coloured attachment that holds the blocks.
pub struct Attachment {
    pub color: String,
    pub blocks: Vec<Block>,
}

/// The document handed to the webhook.
pub struct Document {
    pub attachments: Vec<Attachment>,
}

/// The mathematical value of a `TextObject`.
pub struct TextModel {
    pub kind: Seq<char>,
    pub text: Seq<char>,
    pub emoji: Option<bool>,
}

/// The mathematical value of a `Block`.
pub struct BlockModel {
    pub kind: Seq<char>,
    pub text: Option<TextModel>,
    pub fields: Seq<TextModel>,
}

/// The mathematical value of an `Attachment`.
pub struct AttachmentModel {
    pub color: Seq<char>,
    pub blocks: Seq<BlockModel>,
}

/// The mathematical value of a `Document`.
pub struct DocumentModel {
    pub attachments: Seq<AttachmentModel>,
}

impl View for TextObject {
    type V = TextModel;

    open spec fn view(&self) -> TextModel {
        TextModel { kind: self.kind@, text: self.text@, emoji: self.emoji }
    }
}

impl View for Block {
    type V = BlockModel;

    open spec fn view(&self) -> BlockModel {
        BlockModel {
            kind: self.kind@,
            text: match self.text {
                Some(t) => Some(t@),
                None => None,
            },
            fields: self.fields@.map_values(|t: TextObject| t@),
        }
    }
}

impl View for Attachment {
    type V = AttachmentModel;

    open spec fn view(&self) -> AttachmentModel {
        AttachmentModel { color: self.color@, blocks: self.blocks@.map_values(|b: Block| b@) }
    }
}

impl View for Document {
    type V = DocumentModel;

    open spec fn view(&self) -> DocumentModel {
        DocumentModel { attachments: self.attachments@.map_values(|a: Attachment| a@) }
    }
}

/// The decimal digit for `d < 10`.
pub open spec fn digit_char(d: nat) -> char {
    if d == 0 {
        '0'
    } else if d == 1 {
        '1'
    } else if d == 2 {
        '2'
    } else if d == 3 {
        '3'
    } else if d == 4 {
        '4'
    } else if d == 5 {
        '5'
    } else if d == 6 {
        '6'
    } else if d == 7 {
        '7'
    } else if d == 8 {
        '8'
    } else {
        '9'
    }
}

/// The decimal notation of `n`, without leading zeros.
pub open spec fn decimal(n: nat) -> Seq<char>
    decreases n,
{
    if n < 10 {
        seq![digit_char(n)]
    } else {
        decimal(n / 10).push(digit_char(n % 10))
    }
}

/// One frame of the backtrace text: `*file* in `function` at `line``.
pub open spec fn frame_line(f: FrameModel) -> Seq<char> {
    "*"@ + f.file + "* in `"@ + f.function + "` at `"@ + decimal(f.line as nat) + "`"@
}

/// The frames' lines joined by newlines.
pub open spec fn backtrace_text_spec(frames: Seq<FrameModel>) -> Seq<char>
    decreases frames.len(),
{
    if frames.len() == 0 {
        Seq::empty()
    } else if frames.len() == 1 {
        frame_line(frames[0])
    } else {
        backtrace_text_spec(frames.drop_last()) + "\n"@ + frame_line(frames.last())
    }
}

/// The header block, titled with the warning marker and the application name.
pub open spec fn header_block(app_name: Seq<char>) -> BlockModel {
    BlockModel {
        kind: "header"@,
        text: Some(
            TextModel {
                kind: "plain_text"@,
                text: ":warning: WUD Report | "@ + app_name,
                emoji: Some(true),
            },
        ),
        fields: Seq::empty(),
    }
}

/// The section that shows the error type and message side by side.
pub open spec fn fields_block(error_type: Seq<char>, error_message: Seq<char>) -> BlockModel {
    BlockModel {
        kind: "section"@,
        text: None,
        fields: seq![
            TextModel { kind: "mrkdwn"@, text: "*Error Type:*\n"@ + error_type, emoji: None },
            TextModel { kind: "mrkdwn"@, text: "*Error Message:*\n"@ + error_message, emoji: None },
        ],
    }
}

/// The section that shows the frames in a code block.
pub open spec fn backtrace_block(frames: Seq<FrameModel>) -> BlockModel {
    BlockModel {
        kind: "section"@,
        text: Some(
            TextModel {
                kind: "mrkdwn"@,
                text: "*Backtrace:*\n```"@ + backtrace_text_spec(frames) + "```"@,
                emoji: None,
            },
        ),
        fields: Seq::empty(),
    }
}

/// The document of an event: one red attachment with a header, the type and
/// message fields, and a backtrace section exactly when there are frames.
pub open spec fn document_spec(e: EventModel) -> DocumentModel {
    let head = seq![header_block(e.app_name), fields_block(e.error_type, e.error_message)];
    DocumentModel {
        attachments: seq![
            AttachmentModel {
                color: "#FF0000"@,
                blocks: if e.frames.len() == 0 {
                    head
                } else {
                    head.push(backtrace_block(e.frames))
                },
            },
        ],
    }
}

/// The local log line of an event: `<error_type>:<error_message>`.
pub open spec fn log_line_spec(e: EventModel) -> Seq<char> {
    e.error_type + ":"@ + e.error_message
}

fn digit_text(d: u32) -> (r: &'static str)
    requires
        d < 10,
    ensures
        r@ == seq![digit_char(d as nat)],
{
    if d == 0 {
        proof { reveal_strlit("0"); }
        "0"
    } else if d == 1 {
        proof { reveal_strlit("1"); }
        "1"
    } else if d == 2 {
        proof { reveal_strlit("2"); }
        "2"
    } else if d == 3 {
        proof { reveal_strlit("3"); }
        "3"
    } else if d == 4 {
        proof { reveal_strlit("4"); }
        "4"
    } else if d == 5 {
        proof { reveal_strlit("5"); }
        "5"
    } else if d == 6 {
        proof { reveal_strlit("6"); }
        "6"
    } else if d == 7 {
        proof { reveal_strlit("7"); }
        "7"
    } else if d == 8 {
        proof { reveal_strlit("8"); }
        "8"
    } else {
        proof { reveal_strlit("9"); }
        "9"
    }
}

/// The decimal notation of `n`.
pub fn decimal_text(n: u32) -> (r: String)
    ensures
        r@ == decimal(n as nat),
    decreases n,
{
    if n < 10 {
        let r = String::from_str(digit_text(n));
        assert(r@ =~= decimal(n as nat));
        r
    } else {
        let mut r = decimal_text(n / 10);
        r.append(digit_text(n % 10));
        assert(r@ =~= decimal(n as nat));
        r
    }
}

/// The backtrace text of the frames: one line per frame, in order.
pub fn backtrace_text(frames: &Vec<StackFrame>) -> (r: String)
    ensures
        r@ == backtrace_text_spec(frames_model(frames@)),
{
    let mut text = String::new();
    let mut i: usize = 0;
    while i < frames.len()
        invariant
            i <= frames@.len(),
            text@ == backtrace_text_spec(frames_model(frames@.take(i as int))),
        decreases frames@.len() - i,
    {
        let f = &frames[i];
        let ghost prefix = frames_model(frames@.take(i as int));
        assert(frames_model(frames@.take(i + 1)).drop_last() =~= prefix);
        if i > 0 {
            text.append("\n");
        }
        text.append("*");
        text.append(f.file.as_str());
        text.append("* in `");
        text.append(f.function.as_str());
        text.append("` at `");
        let number = decimal_text(f.line);
        text.append(number.as_str());
        text.append("`");
        assert(text@ =~= backtrace_text_spec(frames_model(frames@.take(i + 1))));
        i = i + 1;
    }
    assert(frames@.take(frames@.len() as int) =~= frames@);
    text
}

fn text_object(kind: &str, text: String, emoji: Option<bool>) -> (r: TextObject)
    ensures
        r@ == (TextModel { kind: kind@, text: text@, emoji }),
{
    TextObject { kind: String::from_str(kind), text, emoji }
}

fn prefixed(prefix: &str, s: &String) -> (r: String)
    ensures
        r@ == prefix@ + s@,
{
    let mut r = String::from_str(prefix);
    r.append(s.as_str());
    r
}

/// Renders an event as the webhook document.
pub fn format_event(e: &ErrorEvent) -> (r: Document)
    ensures
        r@ == document_spec(e@),
{
    let header = Block {
        kind: String::from_str("header"),
        text: Some(text_object("plain_text", prefixed(":warning: WUD Report | ", &e.app_name), Some(true))),
        fields: Vec::new(),
    };
    let mut fields: Vec<TextObject> = Vec::new();
    fields.push(text_object("mrkdwn", prefixed("*Error Type:*\n", &e.error_type), None));
    fields.push(text_object("mrkdwn", prefixed("*Error Message:*\n", &e.error_message), None));
    let section = Block { kind: String::from_str("section"), text: None, fields };
    assert(header@.fields =~= Seq::<TextModel>::empty());
    assert(header@ == header_block(e.app_name@));
    assert(section@.fields =~= fields_block(e.error_type@, e.error_message@).fields);
    assert(section@ == fields_block(e.error_type@, e.error_message@));
    let mut blocks: Vec<Block> = Vec::new();
    blocks.push(header);
    blocks.push(section);
    if e.frames.len() > 0 {
        let mut text = prefixed("*Backtrace:*\n```", &backtrace_text(&e.frames));
        text.append("```");
        let trace = Block {
            kind: String::from_str("section"),
            text: Some(text_object("mrkdwn", text, None)),
            fields: Vec::new(),
        };
        assert(trace@.fields =~= Seq::<TextModel>::empty());
        assert(trace@ == backtrace_block(e@.frames));
        blocks.push(trace);
    }
    let attachment = Attachment { color: String::from_str("#FF0000"), blocks };
    assert(attachment@.blocks =~= document_spec(e@).attachments[0].blocks);
    assert(attachment@ == document_spec(e@).attachments[0]);
    let mut attachments: Vec<Attachment> = Vec::new();
    attachments.push(attachment);
    let r = Document { attachments };
    assert(r@.attachments =~= document_spec(e@).attachments);
    r
}

/// The local log line of an event.
pub fn log_line(e: &ErrorEvent) -> (r: String)
    ensures
        r@ == log_line_spec(e@),
{
    let mut r = e.error_type.clone();
    r.append(":");
    r.append(e.error_message.as_str());
    r
}

/// Rendering is deterministic: documents rendered from events of equal value
/// are equal.
pub proof fn lemma_format_deterministic(e1: ErrorEvent, e2: ErrorEvent, d1: Document, d2: Document)
    requires
        e1@ == e2@,
        d1@ == document_spec(e1@),
        d2@ == document_spec(e2@),
    ensures
        d1@ == d2@,
{
}

/// An event without frames renders as the header and the fields blocks
/// alone, with no backtrace section; an event with frames has the backtrace
/// section as its third and last block.
pub proof fn lemma_backtrace_section_iff_frames(e: EventModel)
    ensures
        e.frames.len() == 0 ==> document_spec(e).attachments[0].blocks == seq![
            header_block(e.app_name),
            fields_block(e.error_type, e.error_message),
        ],
        e.frames.len() > 0 ==> document_spec(e).attachments[0].blocks.len() == 3
            && document_spec(e).attachments[0].blocks[2] == backtrace_block(e.frames),
{
}

} // verus!
