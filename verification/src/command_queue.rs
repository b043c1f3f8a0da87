//! The event loop's schedule of commands: each command runs at its start time,
//! earliest first.
use vstd::prelude::*;

verus! {

/// A command and the time it is due, in the event loop's clock.
pub struct Command<T> {
    start_time: u64,
    data: T,
}

impl<T> Command<T> {
    pub closed spec fn start(&self) -> u64 {
        self.start_time
    }

    pub closed spec fn payload(&self) -> T {
        self.data
    }

    /// A command due `delay` after `now`.
    pub fn new(data: T, delay: u64, now: u64) -> (c: Self)
        requires
            now + delay <= u64::MAX,
        ensures
            c.start() == now + delay,
            c.payload() == data,
    {
        Command { start_time: now + delay, data }
    }

    pub fn start_time(&self) -> (t: u64)
        ensures
            t == self.start(),
    {
        self.start_time
    }

    pub fn data(self) -> (d: T)
        ensures
            d == self.payload(),
    {
        self.data
    }
}

/// Whether commands stand in order of their start times.
pub open spec fn in_start_order<T>(s: Seq<Command<T>>) -> bool {
    forall|i: int, j: int| 0 <= i < j < s.len() ==> #[trigger] s[i].start() <= #[trigger] s[j].start()
}

/// The commands waiting to run, kept in order of their start times; among
/// commands due at the same time, the one pushed first runs first.
pub struct CommandQueue<T> {
    queue: Vec<Command<T>>,
}

impl<T> View for CommandQueue<T> {
    type V = Seq<Command<T>>;

    closed spec fn view(&self) -> Seq<Command<T>> {
        self.queue@
    }
}

impl<T> CommandQueue<T> {
    pub closed spec fn wf(&self) -> bool {
        in_start_order(self.queue@)
    }

    pub fn new() -> (q: Self)
        ensures
            q.wf(),
            q@ == Seq::<Command<T>>::empty(),
    {
        CommandQueue { queue: Vec::new() }
    }

    pub fn len(&self) -> (n: usize)
        ensures
            n == self@.len(),
    {
        self.queue.len()
    }

    pub fn is_empty(&self) -> (b: bool)
        ensures
            b == (self@.len() == 0),
    {
        self.queue.len() == 0
    }

    /// Schedules a command: it goes after every command due no later than it,
    /// before every command due later.
    pub fn push(&mut self, command: Command<T>)
        requires
            old(self).wf(),
        ensures
            final(self).wf(),
            exists|k: int| 0 <= k <= old(self)@.len() && final(self)@ == old(self)@.insert(k, command)
                && (forall|j: int| 0 <= j < k ==> #[trigger] old(self)@[j].start() <= command.start())
                && (forall|j: int| k <= j < old(self)@.len() ==> #[trigger] old(self)@[j].start() > command.start()),
    {
        let t = command.start_time;
        let n = self.queue.len();
        let mut k: usize = n;
        while k > 0 && self.queue[k - 1].start_time > t
            invariant
                k <= n,
                n == self.queue@.len(),
                self.queue@ == old(self).queue@,
                in_start_order(self.queue@),
                forall|j: int| k <= j < n ==> #[trigger] self.queue@[j].start() > t,
            decreases k,
        {
            k -= 1;
        }
        proof {
            assert forall|j: int| 0 <= j < k implies #[trigger] self.queue@[j].start() <= t by {
                if k > 0 {
                    assert(self.queue@[k - 1].start() <= t);
                }
            }
        }
        let ghost pre = self.queue@;
        self.queue.insert(k, command);
        proof {
            let s = self.queue@;
            assert(s == pre.insert(k as int, command));
            assert forall|i: int, j: int| 0 <= i < j < s.len() implies #[trigger] s[i].start() <= #[trigger] s[j].start() by {
                if j < k {
                    assert(s[i] == pre[i] && s[j] == pre[j]);
                } else if j == k {
                    assert(s[i] == pre[i]);
                } else if i == k {
                    assert(s[j] == pre[j - 1]);
                } else if i < k {
                    assert(s[i] == pre[i] && s[j] == pre[j - 1]);
                } else {
                    assert(s[i] == pre[i - 1] && s[j] == pre[j - 1]);
                }
            }
            assert(self@ == old(self)@.insert(k as int, command));
            assert(forall|j: int| 0 <= j < k ==> #[trigger] old(self)@[j].start() <= command.start());
            assert(forall|j: int| k <= j < old(self)@.len() ==> #[trigger] old(self)@[j].start() > command.start());
        }
    }

    /// The start time of the earliest command, if any.
    pub fn peek_start_time(&self) -> (t: Option<u64>)
        requires
            self.wf(),
        ensures
            self@.len() == 0 ==> t is None,
            self@.len() > 0 ==> t == Some(self@[0].start()),
            forall|j: int| 0 <= j < self@.len() ==> (t matches Some(s) && s <= #[trigger] self@[j].start()),
    {
        proof {
            assert forall|j: int| 0 < j < self@.len() implies #[trigger] self@[j].start() >= self@[0].start() by {
                assert(self.queue@[0].start() <= self.queue@[j].start());
            }
        }
        if self.queue.len() == 0 {
            None
        } else {
            Some(self.queue[0].start_time)
        }
    }

    /// Takes out the earliest command, if any.
    pub fn pop(&mut self) -> (c: Option<Command<T>>)
        requires
            old(self).wf(),
        ensures
            final(self).wf(),
            old(self)@.len() == 0 ==> c is None && final(self)@ == old(self)@,
            old(self)@.len() > 0 ==> c == Some(old(self)@[0]) && final(self)@ == old(self)@.drop_first(),
            c matches Some(cmd) ==> forall|j: int| 0 <= j < old(self)@.len() ==> cmd.start() <= #[trigger] old(self)@[j].start(),
    {
        if self.queue.len() == 0 {
            None
        } else {
            let c = self.queue.remove(0);
            proof {
                assert(self.queue@ =~= old(self).queue@.drop_first());
            }
            Some(c)
        }
    }

    /// Moves every command of `other` into this schedule.
    pub fn append(&mut self, other: CommandQueue<T>)
        requires
            old(self).wf(),
            other.wf(),
        ensures
            final(self).wf(),
            final(self)@.to_multiset() == old(self)@.to_multiset().add(other@.to_multiset()),
            final(self)@.len() == old(self)@.len() + other@.len(),
    {
        let mut other = other;
        let ghost rest = other@;
        let ghost moved = Seq::<Command<T>>::empty();
        proof {
            vstd::seq_lib::to_multiset_len(moved);
            vstd::multiset::lemma_multiset_empty_len(moved.to_multiset());
            assert(old(self)@.to_multiset().add(moved.to_multiset()) =~= old(self)@.to_multiset());
            assert(rest =~= moved + other@);
        }
        while other.queue.len() > 0
            invariant
                self.wf(),
                other.wf(),
                rest == moved + other@,
                self@.to_multiset() == old(self)@.to_multiset().add(moved.to_multiset()),
                self@.len() == old(self)@.len() + moved.len(),
            decreases other@.len(),
        {
            let ghost before = self@;
            let c = other.queue.remove(0);
            proof {
                assert(other@ =~= (rest.subrange(moved.len() as int + 1, rest.len() as int)));
            }
            let ghost c_ghost = c;
            self.push(c);
            proof {
                let k = choose|k: int| 0 <= k <= before.len() && self@ == before.insert(k, c_ghost)
                    && (forall|j: int| 0 <= j < k ==> #[trigger] before[j].start() <= c_ghost.start())
                    && (forall|j: int| k <= j < before.len() ==> #[trigger] before[j].start() > c_ghost.start());
                vstd::seq_lib::lemma_multiset_commutative(moved, seq![c_ghost]);
                vstd::seq_lib::to_multiset_insert(before, k, c_ghost);
                assert(seq![c_ghost].to_multiset() =~= vstd::multiset::Multiset::empty().insert(c_ghost)) by {
                    broadcast use vstd::seq_lib::group_to_multiset_ensures;
                    assert(seq![c_ghost] =~= Seq::<Command<T>>::empty().push(c_ghost));
                }
                assert(rest == (moved + seq![c_ghost]) + other@);
                moved = moved + seq![c_ghost];
            }
        }
        proof {
            assert(moved =~= rest);
        }
    }

    /// Takes every command out, leaving the schedule empty.
    pub fn take(&mut self) -> (all: CommandQueue<T>)
        requires
            old(self).wf(),
        ensures
            final(self).wf(),
            all.wf(),
            all@ == old(self)@,
            final(self)@.len() == 0,
    {
        let mut all = CommandQueue::new();
        std::mem::swap(&mut all.queue, &mut self.queue);
        all
    }

    /// Takes out the commands due by `now`, in the order they are due; the ones
    /// due later stay.
    pub fn take_due(&mut self, now: u64) -> (due: Vec<T>)
        requires
            old(self).wf(),
        ensures
            final(self).wf(),
            exists|k: int| {
                &&& 0 <= k <= old(self)@.len()
                &&& due@ == old(self)@.take(k).map_values(|c: Command<T>| c.payload())
                &&& final(self)@ == old(self)@.skip(k)
                &&& forall|j: int| 0 <= j < k ==> #[trigger] old(self)@[j].start() <= now
                &&& forall|j: int| k <= j < old(self)@.len() ==> #[trigger] old(self)@[j].start() > now
            },
    {
        let mut due: Vec<T> = Vec::new();
        let ghost k: int = 0;
        while self.queue.len() > 0 && self.queue[0].start_time <= now
            invariant
                self.wf(),
                0 <= k <= old(self)@.len(),
                self@ == old(self)@.skip(k),
                due@ == old(self)@.take(k).map_values(|c: Command<T>| c.payload()),
                forall|j: int| 0 <= j < k ==> #[trigger] old(self)@[j].start() <= now,
            decreases self@.len(),
        {
            let c = self.queue.remove(0);
            due.push(c.data());
            proof {
                assert(old(self)@.take(k + 1).map_values(|c: Command<T>| c.payload())
                    =~= old(self)@.take(k).map_values(|c: Command<T>| c.payload()).push(c.payload()));
                assert(self.queue@ =~= old(self)@.skip(k + 1));
                assert(in_start_order(self.queue@));
                k = k + 1;
            }
        }
        proof {
            assert forall|j: int| k <= j < old(self)@.len() implies #[trigger] old(self)@[j].start() > now by {
                assert(old(self)@[j] == self@[j - k]);
                assert(self@[0].start() <= self@[j - k].start());
            }
        }
        due
    }
}

} // verus!
