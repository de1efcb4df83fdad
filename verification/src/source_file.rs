//! Splitting a source file into statements, comments and line breaks, and
//! handing the pieces to an event sink.
use std::ops::Range;
use vstd::prelude::*;

use crate::syntax_kind::SyntaxKind;

verus! {

/// A piece of a source file: a statement up to its `;`, a run of line
/// breaks, or a comment.
#[derive(Clone, Copy, Debug, PartialEq, Eq, Structural)]
pub enum SourceFileToken {
    Statement,
    Newline,
    Comment,
}

/// What an event sink was handed.
pub ghost enum SinkEvent {
    StartNode(SyntaxKind),
    FinishNode,
    Token(SyntaxKind, Seq<char>),
    Error(Seq<char>, int, int),
}

/// A receiver of the nodes, tokens and errors of a parse, in order.
pub trait EventSink {
    /// What the sink was handed so far.
    spec fn recorded(&self) -> Seq<SinkEvent>;

    /// Opens a node of `kind`.
    fn start_node(&mut self, kind: SyntaxKind)
        ensures
            final(self).recorded() == old(self).recorded().push(SinkEvent::StartNode(kind)),
    ;

    /// Closes the innermost open node.
    fn finish_node(&mut self)
        ensures
            final(self).recorded() == old(self).recorded().push(SinkEvent::FinishNode),
    ;

    /// Adds a token of `kind` with `text`.
    fn token(&mut self, kind: SyntaxKind, text: &str)
        ensures
            final(self).recorded() == old(self).recorded().push(SinkEvent::Token(kind, text@)),
    ;

    /// Records an error about the bytes `range`.
    fn error(&mut self, error: String, range: Range<usize>)
        ensures
            final(self).recorded() == old(self).recorded().push(
                SinkEvent::Error(error@, range.start as int, range.end as int),
            ),
    ;
}

/// An event sink that keeps what it is handed.
pub struct EventRecorder {
    pub events: Vec<RecordedEvent>,
}

/// What an [`EventRecorder`] was handed.
#[derive(Debug, PartialEq, Eq)]
pub enum RecordedEvent {
    StartNode(SyntaxKind),
    FinishNode,
    Token(SyntaxKind, String),
    Error(String, usize, usize),
}

impl View for RecordedEvent {
    type V = SinkEvent;

    open spec fn view(&self) -> SinkEvent {
        match self {
            RecordedEvent::StartNode(k) => SinkEvent::StartNode(*k),
            RecordedEvent::FinishNode => SinkEvent::FinishNode,
            RecordedEvent::Token(k, t) => SinkEvent::Token(*k, t@),
            RecordedEvent::Error(m, s, e) => SinkEvent::Error(m@, *s as int, *e as int),
        }
    }
}

impl EventRecorder {
    /// A recorder that was handed nothing.
    pub fn new() -> (r: EventRecorder)
        ensures
            r.recorded() == Seq::<SinkEvent>::empty(),
    {
        let r = EventRecorder { events: Vec::new() };
        assert(r.recorded() =~= Seq::<SinkEvent>::empty());
        r
    }

    proof fn lemma_push(old_events: Seq<RecordedEvent>, e: RecordedEvent)
        ensures
            old_events.push(e).map_values(|x: RecordedEvent| x@) == old_events.map_values(|x: RecordedEvent| x@).push(e@),
    {
        assert(old_events.push(e).map_values(|x: RecordedEvent| x@) =~= old_events.map_values(|x: RecordedEvent| x@).push(e@));
    }
}

impl EventSink for EventRecorder {
    open spec fn recorded(&self) -> Seq<SinkEvent> {
        self.events@.map_values(|e: RecordedEvent| e@)
    }

    fn start_node(&mut self, kind: SyntaxKind) {
        proof {
            EventRecorder::lemma_push(self.events@, RecordedEvent::StartNode(kind));
        }
        self.events.push(RecordedEvent::StartNode(kind));
    }

    fn finish_node(&mut self) {
        proof {
            EventRecorder::lemma_push(self.events@, RecordedEvent::FinishNode);
        }
        self.events.push(RecordedEvent::FinishNode);
    }

    fn token(&mut self, kind: SyntaxKind, text: &str) {
        let t = text.to_owned();
        proof {
            EventRecorder::lemma_push(self.events@, RecordedEvent::Token(kind, t));
        }
        self.events.push(RecordedEvent::Token(kind, t));
    }

    fn error(&mut self, error: String, range: Range<usize>) {
        proof {
            EventRecorder::lemma_push(self.events@, RecordedEvent::Error(error, range.start, range.end));
        }
        self.events.push(RecordedEvent::Error(error, range.start, range.end));
    }
}

/// The token a comment or a run of line breaks gives.
pub open spec fn piece_event(p: (SourceFileToken, Seq<char>)) -> SinkEvent {
    SinkEvent::Token(
        if p.0 is Comment {
            SyntaxKind::Comment
        } else {
            SyntaxKind::Newline
        },
        p.1,
    )
}

/// The events a source file's pieces give: the source node around a token
/// for each comment and each run of line breaks.
pub open spec fn source_file_events(pieces: Seq<(SourceFileToken, Seq<char>)>) -> Seq<SinkEvent> {
    seq![SinkEvent::StartNode(SyntaxKind::SourceFile)] + pieces.map_values(|p: (SourceFileToken, Seq<char>)| piece_event(p))
        + seq![SinkEvent::FinishNode]
}

/// Hands the pieces of a source file to `sink`: the source node, and in it
/// a token for each comment and each run of line breaks. `pieces` are the
/// lexed pieces with their text; statements are not handled here.
pub fn parse_source_file<T: EventSink>(pieces: &Vec<(SourceFileToken, String)>, sink: &mut T)
    requires
        forall|i: int| 0 <= i < pieces@.len() ==> !((#[trigger] pieces@[i]).0 is Statement),
    ensures
        final(sink).recorded() == old(sink).recorded() + source_file_events(
            pieces@.map_values(|p: (SourceFileToken, String)| (p.0, p.1@)),
        ),
{
    let ghost views = pieces@.map_values(|p: (SourceFileToken, String)| (p.0, p.1@));
    let ghost tokens_of = |p: (SourceFileToken, Seq<char>)| piece_event(p);
    sink.start_node(SyntaxKind::SourceFile);
    let mut i: usize = 0;
    while i < pieces.len()
        invariant
            i <= pieces@.len(),
            views == pieces@.map_values(|p: (SourceFileToken, String)| (p.0, p.1@)),
            tokens_of == (|p: (SourceFileToken, Seq<char>)| piece_event(p)),
            forall|j: int| 0 <= j < pieces@.len() ==> !((#[trigger] pieces@[j]).0 is Statement),
            sink.recorded() == old(sink).recorded() + seq![SinkEvent::StartNode(SyntaxKind::SourceFile)]
                + views.take(i as int).map_values(tokens_of),
        decreases pieces.len() - i,
    {
        let (kind, text) = (pieces[i].0, &pieces[i].1);
        let ghost before = sink.recorded();
        assert(views[i as int] == (kind, text@));
        match kind {
            SourceFileToken::Comment => {
                sink.token(SyntaxKind::Comment, text.as_str());
            },
            SourceFileToken::Newline => {
                sink.token(SyntaxKind::Newline, text.as_str());
            },
            SourceFileToken::Statement => {
                assert(false);
            },
        }
        proof {
            assert(views.take(i + 1).map_values(tokens_of) =~= views.take(i as int).map_values(tokens_of).push(
                tokens_of(views[i as int]),
            ));
            assert(sink.recorded() == before.push(tokens_of(views[i as int])));
            assert(old(sink).recorded() + seq![SinkEvent::StartNode(SyntaxKind::SourceFile)] + views.take(
                i + 1,
            ).map_values(tokens_of) =~= (old(sink).recorded() + seq![SinkEvent::StartNode(SyntaxKind::SourceFile)]
                + views.take(i as int).map_values(tokens_of)).push(tokens_of(views[i as int])));
        }
        i = i + 1;
    }
    sink.finish_node();
    proof {
        assert(views.take(views.len() as int) =~= views);
        assert(old(sink).recorded() + seq![SinkEvent::StartNode(SyntaxKind::SourceFile)] + views.map_values(
            tokens_of,
        ) + seq![SinkEvent::FinishNode] =~= old(sink).recorded() + source_file_events(views));
    }
}

} // verus!
