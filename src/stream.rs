use vstd::prelude::*;
use crate::response::TitanResponse;

verus! {

/// The outcome of one pull on the model's response stream.
#[derive(Debug)]
pub enum StreamEvent {
    /// A data chunk whose bytes decoded to a response.
    Data(TitanResponse),
    /// A data chunk whose bytes did not decode to a response.
    Malformed,
    /// A chunk that carries no data (a control or metadata event).
    Control,
    /// The stream ended cleanly.
    End,
    /// The channel failed.
    Failed,
}

/// A data chunk that decoded and holds at least one candidate.
pub open spec fn well_formed(ev: StreamEvent) -> bool {
    ev is Data && ev->Data_0.results@.len() > 0
}

/// The fragment that an open adapter emits for an event, if any: the first
/// candidate's text of a well-formed data chunk.
pub open spec fn fragment_of(ev: StreamEvent) -> Option<Seq<char>> {
    match ev {
        StreamEvent::Data(r) => r.first_text_spec(),
        _ => None,
    }
}

/// The fragments emitted by a fresh adapter pulled once per event, in order,
/// up to the first event that closes it.
pub open spec fn fragments(evs: Seq<StreamEvent>) -> Seq<Seq<char>>
    decreases evs.len(),
{
    if evs.len() == 0 {
        Seq::empty()
    } else {
        match fragment_of(evs[0]) {
            Some(t) => seq![t] + fragments(evs.drop_first()),
            None => Seq::empty(),
        }
    }
}

/// How many events a fresh adapter consumes before it closes, or all of
/// them if none closes it.
pub open spec fn pulls(evs: Seq<StreamEvent>) -> nat
    decreases evs.len(),
{
    if evs.len() == 0 {
        0
    } else {
        match fragment_of(evs[0]) {
            Some(_) => 1 + pulls(evs.drop_first()),
            None => 1,
        }
    }
}

/// Turns the model's chunked response stream into text fragments, one pull
/// at a time. It is `Open` until an event other than a well-formed data
/// chunk arrives, and `Closed` from then on.
pub struct StreamAdapter {
    open: bool,
}

impl StreamAdapter {
    pub closed spec fn is_open_spec(&self) -> bool {
        self.open
    }

    /// A fresh adapter for one streamed request.
    pub fn new() -> (r: StreamAdapter)
        ensures
            r.is_open_spec(),
    {
        StreamAdapter { open: true }
    }

    /// Whether further pulls may still produce fragments.
    #[verifier::when_used_as_spec(is_open_spec)]
    pub fn is_open(&self) -> (r: bool)
        ensures
            r == self.is_open_spec(),
    {
        self.open
    }

    /// Handles the outcome of one pull: emits the first candidate's text of
    /// a well-formed data chunk, and closes on anything else (end of stream,
    /// channel failure, a control chunk, a chunk that did not decode, a
    /// response without candidates). A closed adapter emits nothing again.
    pub fn next_fragment(&mut self, event: &StreamEvent) -> (r: Option<String>)
        ensures
            r is Some <==> old(self).is_open() && fragment_of(*event) is Some,
            r is Some ==> Some(r->0@) == fragment_of(*event),
            final(self).is_open() == r is Some,
    {
        if !self.open {
            return None;
        }
        let text = match event {
            StreamEvent::Data(response) => match response.first_text() {
                Ok(t) => Some(t),
                Err(_) => None,
            },
            _ => None,
        };
        self.open = text.is_some();
        text
    }
}

/// The views of a list of strings.
pub open spec fn views(v: Seq<String>) -> Seq<Seq<char>> {
    v.map_values(|s: String| s@)
}

/// Drives a fresh adapter over an already-received stream, one pull per
/// event, until it closes or the events run out. Returns the fragments it
/// emitted and the number of events it consumed.
pub fn collect_fragments(events: &Vec<StreamEvent>) -> (r: (Vec<String>, usize))
    ensures
        views(r.0@) == fragments(events@),
        r.1 == pulls(events@),
{
    let mut adapter = StreamAdapter::new();
    let mut out: Vec<String> = Vec::new();
    let mut i: usize = 0;
    while i < events.len() && adapter.is_open()
        invariant
            0 <= i <= events@.len(),
            adapter.is_open() ==> forall|j: int| 0 <= j < i ==> #[trigger] well_formed(events@[j]),
            adapter.is_open() ==> views(out@) == texts(events@.take(i as int)),
            !adapter.is_open() ==> {
                &&& 0 < i
                &&& forall|j: int| 0 <= j < i - 1 ==> #[trigger] well_formed(events@[j])
                &&& !well_formed(events@[i - 1])
                &&& views(out@) == texts(events@.take(i - 1))
            },
        decreases events@.len() - i,
    {
        let emitted = adapter.next_fragment(&events[i]);
        match emitted {
            Some(text) => {
                proof {
                    assert(events@.take(i + 1) == events@.take(i as int).push(events@[i as int]));
                    assert(views(out@.push(text)) =~= views(out@).push(text@));
                    assert(texts(events@.take(i + 1)) =~= texts(events@.take(i as int)).push(
                        events@[i as int]->Data_0.results@[0].output_text@));
                }
                out.push(text);
            },
            None => {},
        }
        i = i + 1;
    }
    proof {
        if adapter.is_open() {
            lemma_prefix(events@, i as nat);
            assert(events@.take(i as int) =~= events@);
            assert(events@.skip(i as int) =~= Seq::<StreamEvent>::empty());
            assert(fragments(events@) =~= texts(events@.take(i as int)));
        } else {
            lemma_stops_at(events@, (i - 1) as nat);
        }
    }
    (out, i)
}


/// The texts of the first candidates of a run of well-formed data chunks.
pub open spec fn texts(evs: Seq<StreamEvent>) -> Seq<Seq<char>> {
    evs.map_values(|ev: StreamEvent| ev->Data_0.results@[0].output_text@)
}

proof fn lemma_prefix(evs: Seq<StreamEvent>, k: nat)
    requires
        k <= evs.len(),
        forall|i: int| 0 <= i < k ==> #[trigger] well_formed(evs[i]),
    ensures
        fragments(evs) == texts(evs.take(k as int)) + fragments(evs.skip(k as int)),
        pulls(evs) == k + pulls(evs.skip(k as int)),
    decreases k,
{
    if k == 0 {
        assert(evs.take(0) =~= Seq::<StreamEvent>::empty());
        assert(evs.skip(0) =~= evs);
        assert(texts(evs.take(0)) =~= Seq::<Seq<char>>::empty());
    } else {
        let rest = evs.drop_first();
        assert(well_formed(evs[0]));
        lemma_prefix(rest, (k - 1) as nat);
        assert(rest.skip(k - 1) =~= evs.skip(k as int));
        assert(texts(evs.take(k as int)) =~= seq![evs[0]->Data_0.results@[0].output_text@]
            + texts(rest.take(k - 1)));
    }
}

proof fn lemma_stops_at(evs: Seq<StreamEvent>, k: nat)
    requires
        k < evs.len(),
        forall|i: int| 0 <= i < k ==> #[trigger] well_formed(evs[i]),
        !well_formed(evs[k as int]),
    ensures
        fragments(evs) == texts(evs.take(k as int)),
        pulls(evs) == k + 1,
{
    lemma_prefix(evs, k);
    let tail = evs.skip(k as int);
    assert(tail[0] == evs[k as int]);
    assert(fragment_of(tail[0]) is None);
    assert(fragments(evs) =~= texts(evs.take(k as int)));
}

/// A stream of `n` well-formed data chunks followed by its end yields
/// exactly the `n` first-candidate texts, in arrival order, and the adapter
/// closes on the end event without pulling further.
pub proof fn lemma_complete_stream(evs: Seq<StreamEvent>, n: nat)
    requires
        n < evs.len(),
        forall|i: int| 0 <= i < n ==> #[trigger] well_formed(evs[i]),
        evs[n as int] is End,
    ensures
        fragments(evs).len() == n,
        forall|i: int|
            0 <= i < n ==> #[trigger] fragments(evs)[i] == evs[i]->Data_0.results@[0].output_text@,
        pulls(evs) == n + 1,
{
    lemma_stops_at(evs, n);
}

/// When the third chunk does not decode, the first two chunks' texts are
/// emitted and the adapter closes after the third pull, whatever follows.
pub proof fn lemma_malformed_third_chunk(evs: Seq<StreamEvent>)
    requires
        evs.len() >= 3,
        well_formed(evs[0]),
        well_formed(evs[1]),
        evs[2] is Malformed,
    ensures
        fragments(evs).len() == 2,
        fragments(evs)[0] == evs[0]->Data_0.results@[0].output_text@,
        fragments(evs)[1] == evs[1]->Data_0.results@[0].output_text@,
        pulls(evs) == 3,
{
    lemma_stops_at(evs, 2);
}

/// A stream that ends at once yields no fragment, and the adapter closes
/// after that single pull.
pub proof fn lemma_immediate_end(evs: Seq<StreamEvent>)
    requires
        evs.len() > 0,
        evs[0] is End,
    ensures
        fragments(evs).len() == 0,
        pulls(evs) == 1,
{
}

} // verus!
