//! A script file as it was found: interpreter line, body, and whether its
//! mode lets anyone execute it.

use crate::elevation::{step, Action, Event};
use crate::mode::{elevate, is_executable, mode_is_executable};
use crate::text::{
    after_first_line, body_of, cuts_first_line, first_line, has_marker, lemma_line_end_from,
    lemma_line_end_unique, lemma_marker_on_first_line, lemma_parts_make_whole, shebang_of,
    split_first_line, starts_with_marker,
};
use vstd::prelude::*;
use vstd::string::*;

verus! {

/// What a file holds, as plain values.
pub struct SFileView {
    /// The interpreter line, newline included, where the file has one.
    pub shebang: Option<Seq<char>>,
    /// Whether the file is known to be executable.
    pub executable: bool,
    /// The text without the interpreter line.
    pub contents: Seq<char>,
}

/// Whether `line` can be an interpreter line: it begins with `#!` and no
/// newline stands before its last character.
pub open spec fn is_shebang_line(line: Seq<char>) -> bool {
    &&& has_marker(line)
    &&& forall|i: int| 0 <= i < line.len() - 1 ==> line[i] != '\n'
}

impl SFileView {
    /// Whether the interpreter line, where there is one, is such a line.
    pub open spec fn well_formed(self) -> bool {
        match self.shebang {
            Some(line) => is_shebang_line(line),
            None => true,
        }
    }

    /// The text that the file was read from.
    pub open spec fn source(self) -> Seq<char> {
        match self.shebang {
            Some(line) => line + self.contents,
            None => self.contents,
        }
    }
}

/// What `text` and `mode` make of a file that was just read.
pub open spec fn inspected(text: Seq<char>, mode: u32) -> SFileView {
    SFileView {
        shebang: shebang_of(text),
        executable: mode_is_executable(mode),
        contents: body_of(text),
    }
}

/// A text that begins with `#!` and whose first newline ends `head` is taken
/// apart into `head` as the interpreter line and `tail` as the body.
pub proof fn lemma_shebang_line_is_split_off(head: Seq<char>, tail: Seq<char>, mode: u32)
    requires
        is_shebang_line(head),
        head.last() == '\n',
    ensures
        inspected(head + tail, mode).shebang == Some(head),
        inspected(head + tail, mode).contents == tail,
{
    let text = head + tail;
    assert(cuts_first_line(text, head.len() as int));
    lemma_line_end_unique(text, head.len() as int);
    assert(first_line(text) =~= head);
    assert(after_first_line(text) =~= tail);
}

/// A text that begins with `#!` and holds no newline is an interpreter line
/// with an empty body.
pub proof fn lemma_unterminated_shebang(text: Seq<char>, mode: u32)
    requires
        has_marker(text),
        forall|i: int| 0 <= i < text.len() ==> text[i] != '\n',
    ensures
        inspected(text, mode).shebang == Some(text),
        inspected(text, mode).contents == Seq::<char>::empty(),
{
    assert(cuts_first_line(text, text.len() as int));
    lemma_line_end_unique(text, text.len() as int);
    assert(first_line(text) =~= text);
    assert(after_first_line(text) =~= Seq::<char>::empty());
}

/// A text that does not begin with `#!` has no interpreter line, and its body
/// is the text itself.
pub proof fn lemma_plain_text_is_kept(text: Seq<char>, mode: u32)
    requires
        !has_marker(text),
    ensures
        inspected(text, mode).shebang is None,
        inspected(text, mode).contents == text,
{
    lemma_marker_on_first_line(text);
    lemma_parts_make_whole(text);
}

/// Whatever the text, the interpreter line and the body put together give it
/// back, and an interpreter line is there exactly when the text begins with
/// `#!`.
pub proof fn lemma_inspected_keeps_text(text: Seq<char>, mode: u32)
    ensures
        inspected(text, mode).source() == text,
        inspected(text, mode).shebang is Some <==> has_marker(text),
{
    lemma_marker_on_first_line(text);
    lemma_parts_make_whole(text);
}

/// What is split off as the interpreter line begins with `#!` and is one
/// line.
pub proof fn lemma_inspected_is_well_formed(text: Seq<char>, mode: u32)
    ensures
        inspected(text, mode).well_formed(),
{
    lemma_line_end_from(text, 0);
}

/// The characters of an optional string.
pub open spec fn line_view(line: Option<String>) -> Option<Seq<char>> {
    match line {
        Some(s) => Some(s@),
        None => None,
    }
}

/// A file's interpreter line, body and executable flag.
pub struct SFile {
    shebang: Option<String>,
    executable: bool,
    contents: String,
}

impl View for SFile {
    type V = SFileView;

    closed spec fn view(&self) -> SFileView {
        SFileView {
            shebang: line_view(self.shebang),
            executable: self.executable,
            contents: self.contents@,
        }
    }
}

impl SFile {
    #[verifier::type_invariant]
    closed spec fn holds_one_line(self) -> bool {
        self@.well_formed()
    }

    /// Takes a file's whole text and its permission mode apart.
    pub fn new(text: &str, mode: u32) -> (file: SFile)
        ensures
            file@ == inspected(text@, mode),
    {
        proof {
            lemma_inspected_is_well_formed(text@, mode);
        }
        let (line, rest) = split_first_line(text);
        let mut contents = String::new();
        let shebang = if starts_with_marker(line) {
            Some(String::from_str(line))
        } else {
            contents.append(line);
            None
        };
        contents.append(rest);
        SFile { shebang, executable: is_executable(mode), contents }
    }

    /// The interpreter line, if the file begins with one.
    pub fn shebang(&self) -> (line: &Option<String>)
        ensures
            line_view(*line) == self@.shebang,
            self@.well_formed(),
    {
        proof {
            use_type_invariant(self);
        }
        &self.shebang
    }

    /// Whether the file is known to be executable.
    pub fn executable(&self) -> (flag: bool)
        ensures
            flag == self@.executable,
    {
        self.executable
    }

    /// The text behind the interpreter line, or all of it where there is none.
    pub fn contents(&self) -> (body: &String)
        ensures
            body@ == self@.contents,
    {
        &self.contents
    }

    /// Takes the next decision on the way to an executable file.
    ///
    /// A request on a file that is already executable is finished at once.
    /// Otherwise the mode is to be read; the mode read is answered with the
    /// raised mode to write; and only when that is written is the flag set.
    pub fn make_executable(&mut self, event: Event) -> (action: Action)
        ensures
            (final(self)@, action) == step(old(self)@, event),
    {
        match event {
            Event::Requested => {
                if self.executable {
                    Action::Finish
                } else {
                    Action::ReadMode
                }
            },
            Event::ModeRead(mode) => Action::WriteMode(elevate(mode)),
            Event::ModeWritten => {
                proof {
                    use_type_invariant(&*self);
                }
                self.executable = true;
                Action::Finish
            },
            Event::Failed => Action::Abort,
        }
    }

    /// Writes nothing back: the file on disk keeps its text.
    pub fn write(&mut self)
        ensures
            *final(self) == *old(self),
    {
    }
}

} // verus!
