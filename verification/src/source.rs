//! The shader text of a session and how the fragment source is put together
//! from it.
//!
//! A session either frames the text that the user edits with a fixed head and
//! a fixed tail, or takes that text as the whole fragment source. Which of
//! the two it does is told by the set itself: a set without head and tail is
//! of the second kind. The parts are joined as they are, with nothing put
//! between them: a head that is to end its last line holds the line break
//! itself.

use vstd::prelude::*;

verus! {

/// The text of a part that may be missing: empty where it is.
pub open spec fn text_or_empty(part: Option<Seq<char>>) -> Seq<char> {
    match part {
        Some(text) => text,
        None => Seq::empty(),
    }
}

/// What a [`ShaderSourceSet`] stands for.
pub struct SourceModel {
    /// The vertex shader.
    pub vertex: Seq<char>,
    /// The fixed text before the body, if the set has one.
    pub head: Option<Seq<char>>,
    /// The text that the user edits.
    pub body: Seq<char>,
    /// The fixed text after the body, if the set has one.
    pub tail: Option<Seq<char>>,
}

impl SourceModel {
    /// Whether the body is framed by a head or a tail.
    pub open spec fn is_framed(self) -> bool {
        self.head is Some || self.tail is Some
    }

    /// The full fragment source: head, body and tail, one after the other.
    /// A part that the set does not have counts as empty.
    pub open spec fn fragment_text(self) -> Seq<char> {
        text_or_empty(self.head) + self.body + text_or_empty(self.tail)
    }

    /// The same set with another body.
    pub open spec fn with_body(self, body: Seq<char>) -> SourceModel {
        SourceModel { body, ..self }
    }
}

/// The view of a part that may be missing.
pub open spec fn part_view(part: Option<String>) -> Option<Seq<char>> {
    match part {
        Some(text) => Some(text@),
        None => None,
    }
}

/// The shader text of a session.
#[derive(Clone, Debug, PartialEq, Eq)]
pub struct ShaderSourceSet {
    /// The vertex shader.
    pub vertex: String,
    /// The fixed text before the body.
    pub fragment_head: Option<String>,
    /// The text that the user edits.
    pub fragment_body: String,
    /// The fixed text after the body.
    pub fragment_tail: Option<String>,
}

impl View for ShaderSourceSet {
    type V = SourceModel;

    open spec fn view(&self) -> SourceModel {
        SourceModel {
            vertex: self.vertex@,
            head: part_view(self.fragment_head),
            body: self.fragment_body@,
            tail: part_view(self.fragment_tail),
        }
    }
}

/// The text of a file that was read, or the empty text where it could not be.
pub fn loaded_or_empty(read: Option<String>) -> (text: String)
    ensures
        text@ == text_or_empty(part_view(read)),
{
    match read {
        Some(text) => text,
        None => String::new(),
    }
}

impl ShaderSourceSet {
    /// A set whose body is the whole fragment source. A text that could not
    /// be read counts as empty.
    pub fn single(vertex: Option<String>, body: Option<String>) -> (set: ShaderSourceSet)
        ensures
            set@ == (SourceModel {
                vertex: text_or_empty(part_view(vertex)),
                head: None,
                body: text_or_empty(part_view(body)),
                tail: None,
            }),
    {
        ShaderSourceSet {
            vertex: loaded_or_empty(vertex),
            fragment_head: None,
            fragment_body: loaded_or_empty(body),
            fragment_tail: None,
        }
    }

    /// A set whose body is framed by a head and a tail. A text that could not
    /// be read counts as empty.
    pub fn framed(
        vertex: Option<String>,
        head: Option<String>,
        body: Option<String>,
        tail: Option<String>,
    ) -> (set: ShaderSourceSet)
        ensures
            set@ == (SourceModel {
                vertex: text_or_empty(part_view(vertex)),
                head: Some(text_or_empty(part_view(head))),
                body: text_or_empty(part_view(body)),
                tail: Some(text_or_empty(part_view(tail))),
            }),
    {
        ShaderSourceSet {
            vertex: loaded_or_empty(vertex),
            fragment_head: Some(loaded_or_empty(head)),
            fragment_body: loaded_or_empty(body),
            fragment_tail: Some(loaded_or_empty(tail)),
        }
    }

    /// Whether the body is framed: only then does the fragment program take
    /// the pointer uniform.
    pub fn is_framed(&self) -> (framed: bool)
        ensures
            framed == self@.is_framed(),
    {
        self.fragment_head.is_some() || self.fragment_tail.is_some()
    }

    /// The vertex source handed to the compiler.
    pub fn vertex_source(&self) -> (text: String)
        ensures
            text@ == self@.vertex,
    {
        self.vertex.clone()
    }

    /// The fragment source handed to the compiler.
    pub fn fragment_source(&self) -> (text: String)
        ensures
            text@ == self@.fragment_text(),
    {
        let mut text = String::new();
        match &self.fragment_head {
            Some(head) => text.append(head.as_str()),
            None => {},
        }
        text.append(self.fragment_body.as_str());
        match &self.fragment_tail {
            Some(tail) => text.append(tail.as_str()),
            None => {},
        }
        assert(text@ =~= self@.fragment_text());
        text
    }

    /// Replaces the body by what the editor holds now. Nothing else of the
    /// set changes.
    pub fn set_body(&mut self, body: String)
        ensures
            final(self)@ == old(self)@.with_body(body@),
    {
        self.fragment_body = body;
    }
}

/// With a head and a tail that hold nothing the fragment source is the
/// body, letter for letter: the compiler gets what the editor shows.
pub proof fn lemma_empty_frame(set: SourceModel)
    requires
        text_or_empty(set.head).len() == 0,
        text_or_empty(set.tail).len() == 0,
    ensures
        set.fragment_text() == set.body,
{
    assert(set.fragment_text() =~= set.body);
}

/// Without head and tail the fragment source is the body, letter for letter.
pub proof fn lemma_unframed_is_body(set: SourceModel)
    requires
        set.head is None,
        set.tail is None,
    ensures
        set.fragment_text() == set.body,
{
    assert(set.fragment_text() =~= set.body);
}

/// The fragment source holds head, body and tail whole and in this order,
/// and nothing else.
pub proof fn lemma_framed_layout(set: SourceModel)
    ensures
        ({
            let head = text_or_empty(set.head);
            let tail = text_or_empty(set.tail);
            let text = set.fragment_text();
            let body_at = head.len() as int;
            let tail_at = body_at + set.body.len() as int;
            &&& text.len() == tail_at + tail.len()
            &&& text.subrange(0, body_at) =~= head
            &&& text.subrange(body_at, tail_at) =~= set.body
            &&& text.subrange(tail_at, text.len() as int) =~= tail
        }),
{
}

/// An edit of the body changes neither the vertex source nor the frame.
pub proof fn lemma_edit_keeps_rest(set: SourceModel, body: Seq<char>)
    ensures
        set.with_body(body).vertex == set.vertex,
        set.with_body(body).head == set.head,
        set.with_body(body).tail == set.tail,
        set.with_body(body).is_framed() == set.is_framed(),
{
}

} // verus!
