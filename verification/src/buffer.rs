//! The in-memory representation of an open file or unsaved document.

use vstd::prelude::*;
use std::path::PathBuf;
use ropey::Rope;
use tree_sitter::{Parser, Tree};
use crate::errors::VeloError;
use crate::mode::{plain_text_box, MajorMode, MinorMode, PlainTextMode};
use crate::position::{Position, Selection};
use crate::rope::{
    rope_char_to_line, rope_chars, rope_from_str, rope_insert, rope_insert_char, rope_len_chars,
    rope_len_lines, rope_line_string, rope_line_to_char, rope_new, rope_remove, rope_to_string,
};
use crate::syntax::{parser_has_language, parser_new, parser_parse};
use crate::text::{
    char_index, lemma_line_start_ordered, lemma_valid_pos_index,
    lemma_line_of_start, line_count, line_of, line_start, valid_pos,
};

verus! {

/// A text buffer: the text in a rope, the file it belongs to, whether it has
/// changed since it was last saved, the cursor and selections, its modes,
/// and its syntax tree.
pub struct Buffer {
    pub rope: Rope,
    pub file_path: Option<PathBuf>,
    pub is_dirty: bool,
    pub cursor: Position,
    pub selections: Vec<Selection>,
    pub major_mode: Box<dyn MajorMode>,
    pub minor_modes: Vec<Box<dyn MinorMode>>,
    pub syntax_tree: Option<Tree>,
    pub parser: Parser,
}

/// What a buffer holds, as the editing operations see it.
pub struct BufferView {
    pub text: Seq<char>,
    pub file_path: Option<PathBuf>,
    pub is_dirty: bool,
    pub cursor: Position,
    pub selections: Seq<Selection>,
}

impl View for Buffer {
    type V = BufferView;

    open spec fn view(&self) -> BufferView {
        BufferView {
            text: rope_chars(self.rope),
            file_path: self.file_path,
            is_dirty: self.is_dirty,
            cursor: self.cursor,
            selections: self.selections@,
        }
    }
}

/// The char index that a position names, or `InvalidPosition`.
pub open spec fn index_of(t: Seq<char>, p: Position) -> Result<int, VeloError> {
    if valid_pos(t, p) {
        Ok(char_index(t, p))
    } else {
        Err(VeloError::InvalidPosition)
    }
}

pub open spec fn splice(t: Seq<char>, i: int, s: Seq<char>) -> Seq<char> {
    t.take(i) + s + t.skip(i)
}

pub open spec fn cut(t: Seq<char>, a: int, b: int) -> Seq<char> {
    t.take(a) + t.skip(b)
}

pub open spec fn with_text(b: BufferView, t: Seq<char>) -> BufferView {
    BufferView { text: t, is_dirty: true, ..b }
}

/// Inserting `s` at `pos`: the new view, and the outcome.
pub open spec fn insert_spec(b: BufferView, pos: Position, s: Seq<char>) -> (
    BufferView,
    Result<(), VeloError>,
) {
    match index_of(b.text, pos) {
        Ok(i) => (with_text(b, splice(b.text, i, s)), Ok(())),
        Err(e) => (b, Err(e)),
    }
}

/// Deleting the text from `start` to `end`: the new view, and the outcome.
pub open spec fn delete_spec(b: BufferView, start: Position, end: Position) -> (
    BufferView,
    Result<(), VeloError>,
) {
    match index_of(b.text, start) {
        Err(e) => (b, Err(e)),
        Ok(i) => match index_of(b.text, end) {
            Err(e) => (b, Err(e)),
            Ok(j) => if i > j {
                (b, Err(VeloError::InvalidRange))
            } else {
                (with_text(b, cut(b.text, i, j)), Ok(()))
            },
        },
    }
}

/// Inserting `ch` at the cursor: the new view, and the outcome.
pub open spec fn insert_char_spec(b: BufferView, ch: char) -> (BufferView, Result<(), VeloError>) {
    insert_spec(b, b.cursor, seq![ch])
}

/// Deleting the char at the cursor: the new view, and the outcome.
pub open spec fn delete_char_spec(b: BufferView) -> (BufferView, Result<(), VeloError>) {
    match index_of(b.text, b.cursor) {
        Err(e) => (b, Err(e)),
        Ok(i) => if i >= b.text.len() {
            (b, Err(VeloError::InvalidPosition))
        } else {
            (with_text(b, cut(b.text, i, i + 1)), Ok(()))
        },
    }
}

/// Replacing the text from `start` to `end` with `s`: a delete, then an
/// insert at `start` into the shortened text.
pub open spec fn replace_spec(b: BufferView, start: Position, end: Position, s: Seq<char>) -> (
    BufferView,
    Result<(), VeloError>,
) {
    let (b1, r1) = delete_spec(b, start, end);
    if r1 is Err {
        (b1, r1)
    } else {
        insert_spec(b1, start, s)
    }
}

/// A fresh buffer's view: the given text and path, clean, cursor at the
/// origin, no selections.
pub open spec fn fresh_view(t: Seq<char>, path: Option<PathBuf>) -> BufferView {
    BufferView {
        text: t,
        file_path: path,
        is_dirty: false,
        cursor: Position { line: 0, column: 0 },
        selections: Seq::empty(),
    }
}

impl Buffer {
    /// The modes and the parser's language are as in `other`.
    pub open spec fn same_modes(self, other: Buffer) -> bool {
        &&& self.major_mode == other.major_mode
        &&& self.minor_modes == other.minor_modes
        &&& parser_has_language(self.parser) == parser_has_language(other.parser)
    }

    /// The syntax tree is up to date for a parser without a language: there
    /// is none.
    pub open spec fn tree_cleared(self) -> bool {
        !parser_has_language(self.parser) ==> self.syntax_tree is None
    }

    /// Re-parses the whole text when the major mode has a grammar, and drops
    /// the tree when it has none.
    fn update_syntax_tree(&mut self)
        ensures
            final(self)@ == old(self)@,
            final(self).same_modes(*old(self)),
            final(self).tree_cleared(),
    {
        if self.major_mode.grammar().is_some() {
            let source = rope_to_string(&self.rope);
            self.syntax_tree = parser_parse(&mut self.parser, source);
        } else {
            self.syntax_tree = None;
        }
    }

    fn fresh(rope: Rope, file_path: Option<PathBuf>) -> (b: Self)
        ensures
            b@ == fresh_view(rope_chars(rope), file_path),
            b.major_mode == plain_text_box(),
            b.minor_modes@.len() == 0,
            b.syntax_tree is None,
            !parser_has_language(b.parser),
    {
        let major_mode: Box<dyn MajorMode> = Box::new(PlainTextMode::new());
        Self {
            rope,
            file_path,
            is_dirty: false,
            cursor: Position::new(0, 0),
            selections: Vec::new(),
            major_mode,
            minor_modes: Vec::new(),
            syntax_tree: None,
            parser: parser_new(),
        }
    }

    /// An empty buffer in plain-text mode.
    pub fn new() -> (b: Self)
        ensures
            b@ == fresh_view(Seq::empty(), None),
            b.major_mode == plain_text_box(),
            b.minor_modes@.len() == 0,
            b.syntax_tree is None,
            !parser_has_language(b.parser),
    {
        Self::fresh(rope_new(), None)
    }

    /// A buffer holding `text`, with no file.
    pub fn from_text(text: &str) -> (b: Self)
        ensures
            b@ == fresh_view(text@, None),
            b.major_mode == plain_text_box(),
            b.minor_modes@.len() == 0,
            b.syntax_tree is None,
            !parser_has_language(b.parser),
    {
        Self::fresh(rope_from_str(text), None)
    }

    /// A buffer holding `text`, read from the file at `path`.
    pub fn from_file(path: PathBuf, text: &str) -> (b: Self)
        ensures
            b@ == fresh_view(text@, Some(path)),
            b.major_mode == plain_text_box(),
            b.minor_modes@.len() == 0,
            b.syntax_tree is None,
            !parser_has_language(b.parser),
    {
        Self::fresh(rope_from_str(text), Some(path))
    }

    /// Inserts `text` at `pos` and marks the buffer modified; fails with
    /// `InvalidPosition`, changing nothing, when `pos` names no char index.
    pub fn insert(&mut self, pos: Position, text: &str) -> (r: Result<(), VeloError>)
        ensures
            (final(self)@, r) == insert_spec(old(self)@, pos, text@),
            final(self).same_modes(*old(self)),
            r is Ok ==> final(self).tree_cleared(),
            r is Err ==> *final(self) == *old(self),
    {
        let char_idx = self.position_to_char_idx(pos)?;
        rope_insert(&mut self.rope, char_idx, text);
        self.is_dirty = true;
        self.update_syntax_tree();
        Ok(())
    }

    /// Deletes the text from `start` to `end` and marks the buffer modified;
    /// fails, changing nothing, with `InvalidPosition` when either position
    /// names no char index, and with `InvalidRange` when `start` comes after
    /// `end`.
    pub fn delete(&mut self, start: Position, end: Position) -> (r: Result<(), VeloError>)
        ensures
            (final(self)@, r) == delete_spec(old(self)@, start, end),
            final(self).same_modes(*old(self)),
            r is Ok ==> final(self).tree_cleared(),
            r is Err ==> *final(self) == *old(self),
    {
        let start_idx = self.position_to_char_idx(start)?;
        let end_idx = self.position_to_char_idx(end)?;
        if start_idx > end_idx {
            return Err(VeloError::InvalidRange);
        }
        rope_remove(&mut self.rope, start_idx, end_idx);
        self.is_dirty = true;
        self.update_syntax_tree();
        Ok(())
    }

    /// Inserts `ch` at the cursor, which stays where it is, and marks the
    /// buffer modified; fails with `InvalidPosition`, changing nothing, when
    /// the cursor names no char index.
    pub fn insert_char(&mut self, ch: char) -> (r: Result<(), VeloError>)
        ensures
            (final(self)@, r) == insert_char_spec(old(self)@, ch),
            r is Ok ==> final(self)@.text.len() <= usize::MAX,
            final(self).same_modes(*old(self)),
            r is Ok ==> final(self).tree_cleared(),
            r is Err ==> *final(self) == *old(self),
    {
        let char_idx = self.position_to_char_idx(self.cursor)?;
        proof {
            lemma_valid_pos_index(self@.text, self.cursor);
        }
        rope_insert_char(&mut self.rope, char_idx, ch);
        self.is_dirty = true;
        self.update_syntax_tree();
        Ok(())
    }

    /// Deletes the char at the cursor and marks the buffer modified; fails
    /// with `InvalidPosition`, changing nothing, when the cursor names no char
    /// index or the end of the text.
    pub fn delete_char(&mut self) -> (r: Result<(), VeloError>)
        ensures
            (final(self)@, r) == delete_char_spec(old(self)@),
            final(self).same_modes(*old(self)),
            r is Ok ==> final(self).tree_cleared(),
            r is Err ==> *final(self) == *old(self),
    {
        let char_idx = self.position_to_char_idx(self.cursor)?;
        if char_idx >= rope_len_chars(&self.rope) {
            return Err(VeloError::InvalidPosition);
        }
        rope_remove(&mut self.rope, char_idx, char_idx + 1);
        self.is_dirty = true;
        self.update_syntax_tree();
        Ok(())
    }

    /// Replaces the text from `start` to `end` with `text`: deletes it, then
    /// inserts at `start`. A failed delete changes nothing; a failed insert
    /// leaves the deletion in place.
    pub fn replace(&mut self, start: Position, end: Position, text: &str) -> (r: Result<
        (),
        VeloError,
    >)
        ensures
            (final(self)@, r) == replace_spec(old(self)@, start, end, text@),
            final(self).same_modes(*old(self)),
            r is Ok ==> final(self).tree_cleared(),
    {
        self.delete(start, end)?;
        self.insert(start, text)?;
        self.update_syntax_tree();
        Ok(())
    }

    /// What saving writes: the buffer's file and its text; `NoFilePath` when
    /// the buffer has no file.
    pub fn contents_to_save(&self) -> (r: Result<(&PathBuf, String), VeloError>)
        ensures
            self.file_path is None ==> (r matches Err(e) && e is NoFilePath),
            self.file_path matches Some(p) ==> (r matches Ok((q, s)) && *q == p && s@ == self@.text),
    {
        match &self.file_path {
            Some(path) => Ok((path, rope_to_string(&self.rope))),
            None => Err(VeloError::NoFilePath),
        }
    }

    /// Records that the text has been written to the buffer's file.
    pub fn mark_saved(&mut self)
        ensures
            final(self)@ == (BufferView { is_dirty: false, ..old(self)@ }),
            final(self).same_modes(*old(self)),
            final(self).syntax_tree == old(self).syntax_tree,
    {
        self.is_dirty = false;
    }

    /// Records that the text has been written to `path`, which becomes the
    /// buffer's file.
    pub fn mark_saved_as(&mut self, path: PathBuf)
        ensures
            final(self)@ == (BufferView { is_dirty: false, file_path: Some(path), ..old(self)@ }),
            final(self).same_modes(*old(self)),
            final(self).syntax_tree == old(self).syntax_tree,
    {
        self.file_path = Some(path);
        self.is_dirty = false;
    }

    /// The whole text.
    pub fn text(&self) -> (s: String)
        ensures
            s@ == self@.text,
    {
        rope_to_string(&self.rope)
    }

    /// The number of lines, one more than the number of line breaks.
    pub fn line_count(&self) -> (n: usize)
        ensures
            n == line_count(self@.text),
    {
        rope_len_lines(&self.rope)
    }

    /// The text of line `line_idx`, its line break included; `None` past the
    /// last line.
    pub fn line(&self, line_idx: usize) -> (r: Option<String>)
        ensures
            line_idx >= line_count(self@.text) ==> r is None,
            line_idx < line_count(self@.text) ==> (r matches Some(s) && s@ == self@.text.subrange(
                line_start(self@.text, line_idx as nat),
                line_start(self@.text, line_idx as nat + 1),
            )),
    {
        if line_idx >= rope_len_lines(&self.rope) {
            return None;
        }
        Some(rope_line_string(&self.rope, line_idx))
    }

    /// The char index that `pos` names: the start of its line plus its
    /// column; `InvalidPosition` when the line does not exist or the column
    /// lies past the end of the line.
    pub fn position_to_char_idx(&self, pos: Position) -> (r: Result<usize, VeloError>)
        ensures
            r is Ok <==> valid_pos(self@.text, pos),
            r matches Ok(i) ==> i == char_index(self@.text, pos) && i <= self@.text.len(),
            r matches Err(e) ==> e is InvalidPosition,
    {
        let ghost t = self@.text;
        if pos.line >= rope_len_lines(&self.rope) {
            return Err(VeloError::InvalidPosition);
        }
        proof {
            lemma_line_start_ordered(t, pos.line as nat);
        }
        let line_start = rope_line_to_char(&self.rope, pos.line);
        let next_start = rope_line_to_char(&self.rope, pos.line + 1);
        let line_len = next_start - line_start;
        if pos.column > line_len {
            return Err(VeloError::InvalidPosition);
        }
        Ok(line_start + pos.column)
    }

    /// The position of char index `char_idx`: its line, and its distance
    /// from the start of that line; `InvalidPosition` past the end of the
    /// text.
    #[allow(dead_code)]
    fn char_idx_to_position(&self, char_idx: usize) -> (r: Result<Position, VeloError>)
        ensures
            char_idx > self@.text.len() ==> (r matches Err(e) && e is InvalidPosition),
            char_idx <= self@.text.len() ==> (r matches Ok(p) && p.line == line_of(
                self@.text,
                char_idx as int,
            ) && p.column == char_idx - line_start(self@.text, p.line as nat)),
    {
        if char_idx > rope_len_chars(&self.rope) {
            return Err(VeloError::InvalidPosition);
        }
        let line = rope_char_to_line(&self.rope, char_idx);
        proof {
            lemma_line_of_start(self@.text, char_idx as int);
        }
        let line_start = rope_line_to_char(&self.rope, line);
        let column = char_idx - line_start;
        Ok(Position::new(line, column))
    }
}

impl Default for Buffer {
    fn default() -> (b: Self)
        ensures
            b@ == fresh_view(Seq::empty(), None),
            b.major_mode == plain_text_box(),
            b.minor_modes@.len() == 0,
            b.syntax_tree is None,
    {
        Self::new()
    }
}

} // verus!
