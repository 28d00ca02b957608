use vstd::prelude::*;

use crate::record::WebsiteStatus;

verus! {

/// What a worker gets when it asks for work.
#[derive(Debug)]
pub enum Take {
    /// Check `url`; hand its record back under `ticket`.
    Job { ticket: usize, url: String },
    /// Nothing is pending, but more URLs may still come: ask again later.
    Wait,
    /// Nothing is pending and no more URLs will come: stop.
    Done,
}

/// The queue of URLs to check together with the records of those checked.
///
/// URLs are handed out in the order they were submitted, each exactly once,
/// under a ticket that is its position in that order. The record of a URL is
/// accepted once, under its ticket. When the queue is closed, every URL has
/// been handed out and every record has come back, the run is complete and
/// yields one record per submitted URL, in the order of submission, whatever
/// the number of workers and the order in which they finished.
#[derive(Debug)]
pub struct Dispatcher {
    urls: Vec<String>,
    next: usize,
    closed: bool,
    slots: Vec<Option<WebsiteStatus>>,
}

impl Dispatcher {
    /// The URLs submitted so far, in order, duplicates included.
    pub closed spec fn submitted(&self) -> Seq<Seq<char>> {
        self.urls@.map_values(|u: String| u@)
    }

    /// How many URLs have been handed out; also the ticket of the next one.
    pub closed spec fn handed_out(&self) -> nat {
        self.next as nat
    }

    /// Whether the queue takes no more URLs.
    pub closed spec fn is_closed_spec(&self) -> bool {
        self.closed
    }

    /// For each ticket, the record that came back under it, if any.
    pub closed spec fn results(&self) -> Seq<Option<WebsiteStatus>> {
        self.slots@
    }

    /// The queue's invariant: tickets never run past the submitted URLs, and
    /// each record stands under a ticket already handed out, for that ticket's URL.
    pub closed spec fn wf(&self) -> bool {
        &&& self.next <= self.urls@.len()
        &&& self.slots@.len() == self.urls@.len()
        &&& forall|i: int|
            0 <= i < self.slots@.len() && (#[trigger] self.slots@[i]) is Some ==> i < self.next
                && self.slots@[i]->0.url@ == self.urls@[i]@
    }

    /// Whether the run is complete: closed, every URL handed out, every record back.
    pub open spec fn run_complete(&self) -> bool {
        &&& self.is_closed_spec()
        &&& self.handed_out() == self.submitted().len()
        &&& forall|i: int| 0 <= i < self.results().len() ==> (#[trigger] self.results()[i]) is Some
    }

    /// An empty, open queue.
    pub fn new() -> (r: Dispatcher)
        ensures
            r.wf(),
            r.submitted() == Seq::<Seq<char>>::empty(),
            r.results() == Seq::<Option<WebsiteStatus>>::empty(),
            r.handed_out() == 0,
            !r.is_closed_spec(),
    {
        Dispatcher { urls: Vec::new(), next: 0, closed: false, slots: Vec::new() }
    }

    /// Adds `url` to the end of the queue, unless the queue is closed; says
    /// whether it was added.
    pub fn submit(&mut self, url: String) -> (accepted: bool)
        requires
            old(self).wf(),
        ensures
            final(self).wf(),
            accepted == !old(self).is_closed_spec(),
            accepted ==> final(self).submitted() == old(self).submitted().push(url@)
                && final(self).results() == old(self).results().push(None),
            !accepted ==> final(self).submitted() == old(self).submitted()
                && final(self).results() == old(self).results(),
            final(self).handed_out() == old(self).handed_out(),
            final(self).is_closed_spec() == old(self).is_closed_spec(),
    {
        if self.closed {
            return false;
        }
        let ghost u = url@;
        self.urls.push(url);
        self.slots.push(None);
        assert(self.urls@.map_values(|u: String| u@) =~= old(self).urls@.map_values(
            |u: String| u@,
        ).push(u));
        true
    }

    /// Closes the queue: no more URLs will be taken.
    pub fn close(&mut self)
        requires
            old(self).wf(),
        ensures
            final(self).wf(),
            final(self).is_closed_spec(),
            final(self).submitted() == old(self).submitted(),
            final(self).results() == old(self).results(),
            final(self).handed_out() == old(self).handed_out(),
    {
        self.closed = true;
    }

    /// Whether the queue is closed.
    pub fn is_closed(&self) -> (r: bool)
        ensures
            r == self.is_closed_spec(),
    {
        self.closed
    }

    /// Hands out the next URL, or says why there is none.
    pub fn take(&mut self) -> (r: Take)
        requires
            old(self).wf(),
        ensures
            final(self).wf(),
            final(self).submitted() == old(self).submitted(),
            final(self).results() == old(self).results(),
            final(self).is_closed_spec() == old(self).is_closed_spec(),
            old(self).handed_out() < old(self).submitted().len() ==> r is Job
                && r->ticket == old(self).handed_out()
                && r->url@ == old(self).submitted()[r->ticket as int]
                && final(self).handed_out() == old(self).handed_out() + 1,
            old(self).handed_out() == old(self).submitted().len() ==> final(self).handed_out()
                == old(self).handed_out() && (r is Done <==> old(self).is_closed_spec()) && (
            r is Wait <==> !old(self).is_closed_spec()),
    {
        if self.next < self.urls.len() {
            let ticket = self.next;
            let url = self.urls[ticket].clone();
            self.next = self.next + 1;
            Take::Job { ticket, url }
        } else if self.closed {
            Take::Done
        } else {
            Take::Wait
        }
    }

    /// Accepts `record` under `ticket` if that ticket was handed out, has no
    /// record yet, and belongs to the record's URL; else hands the record back.
    pub fn record_result(&mut self, ticket: usize, record: WebsiteStatus) -> (r: Result<
        (),
        WebsiteStatus,
    >)
        requires
            old(self).wf(),
        ensures
            final(self).wf(),
            final(self).submitted() == old(self).submitted(),
            final(self).handed_out() == old(self).handed_out(),
            final(self).is_closed_spec() == old(self).is_closed_spec(),
            r is Ok <==> ticket < old(self).handed_out() && old(self).results()[ticket as int] is None
                && record.url@ == old(self).submitted()[ticket as int],
            match r {
                Ok(_) => final(self).results() == old(self).results().update(
                    ticket as int,
                    Some(record),
                ),
                Err(back) => final(self).results() == old(self).results() && back == record,
            },
    {
        if ticket >= self.next {
            return Err(record);
        }
        if self.slots[ticket].is_some() {
            return Err(record);
        }
        if !(record.url == self.urls[ticket]) {
            return Err(record);
        }
        self.slots.set(ticket, Some(record));
        Ok(())
    }

    /// Whether the run is complete.
    pub fn is_complete(&self) -> (r: bool)
        requires
            self.wf(),
        ensures
            r == self.run_complete(),
    {
        if !self.closed || self.next < self.urls.len() {
            return false;
        }
        let mut i: usize = 0;
        while i < self.slots.len()
            invariant
                i <= self.slots@.len(),
                forall|j: int| 0 <= j < i ==> (#[trigger] self.slots@[j]) is Some,
            decreases self.slots@.len() - i,
        {
            if self.slots[i].is_none() {
                return false;
            }
            i = i + 1;
        }
        true
    }

    /// The records of a complete run: one per submitted URL, in the order of
    /// submission.
    pub fn finish(self) -> (r: Vec<WebsiteStatus>)
        requires
            self.wf(),
            self.run_complete(),
        ensures
            r@.len() == self.submitted().len(),
            forall|i: int| 0 <= i < r@.len() ==> #[trigger] r@[i].url@ == self.submitted()[i],
            forall|i: int| 0 <= i < r@.len() ==> self.results()[i] == Some(#[trigger] r@[i]),
    {
        let ghost orig = self.slots@;
        let mut slots = self.slots;
        let mut out: Vec<WebsiteStatus> = Vec::new();
        while slots.len() > 0
            invariant
                out@.len() + slots@.len() == orig.len(),
                slots@ == orig.subrange(out@.len() as int, orig.len() as int),
                forall|i: int| 0 <= i < out@.len() ==> orig[i] == Some(#[trigger] out@[i]),
                forall|i: int| 0 <= i < orig.len() ==> (#[trigger] orig[i]) is Some,
            decreases slots@.len(),
        {
            let ghost k = out@.len();
            let slot = slots.remove(0);
            assert(slot == orig[k as int]);
            match slot {
                Some(record) => out.push(record),
                None => {},
            }
            assert(slots@ =~= orig.subrange(out@.len() as int, orig.len() as int));
        }
        proof {
            assert forall|i: int| 0 <= i < out@.len() implies #[trigger] out@[i].url@
                == self.submitted()[i] by {
                assert(orig[i] == Some(out@[i]));
            }
        }
        out
    }
}

/// Two complete runs over the same submitted URLs yield records for the same
/// URLs, one per submission and in the same positions, however many workers
/// took part and in whatever order they finished.
pub proof fn lemma_runs_agree_on_urls(a: Dispatcher, b: Dispatcher)
    requires
        a.wf(),
        b.wf(),
        a.run_complete(),
        b.run_complete(),
        a.submitted() == b.submitted(),
    ensures
        a.results().len() == b.results().len(),
        forall|i: int|
            0 <= i < a.results().len() ==> (#[trigger] a.results()[i])->0.url@ == b.results()[i]->0.url@,
{
    reveal(Dispatcher::wf);
    reveal(Dispatcher::results);
    reveal(Dispatcher::submitted);
    assert forall|i: int| 0 <= i < a.results().len() implies (#[trigger] a.results()[i])->0.url@
        == b.results()[i]->0.url@ by {
        assert(a.slots@[i] is Some);
        assert(b.slots@[i] is Some);
        assert(a.urls@[i]@ == a.submitted()[i]);
        assert(b.urls@[i]@ == b.submitted()[i]);
    }
}

} // verus!
