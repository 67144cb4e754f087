use vstd::prelude::*;
use std::collections::VecDeque;

verus! {

/// First-in first-out queue of texts waiting to be spoken.
pub struct ColaTTS {
    cola: VecDeque<String>,
}

impl View for ColaTTS {
    type V = Seq<String>;

    closed spec fn view(&self) -> Seq<String> {
        self.cola@
    }
}

/// The queue `q` with `t` put in at the back.
pub open spec fn metida(q: Seq<String>, t: String) -> Seq<String> {
    q.push(t)
}

/// What taking from the queue `q` gives, and the queue left: the front text
/// and the rest, or nothing and the same queue where it is empty.
pub open spec fn sacada(q: Seq<String>) -> (Option<String>, Seq<String>) {
    if q.len() == 0 {
        (None, q)
    } else {
        (Some(q[0]), q.drop_first())
    }
}

impl ColaTTS {
    /// An empty queue.
    pub fn nueva() -> (c: ColaTTS)
        ensures
            c@ == Seq::<String>::empty(),
    {
        ColaTTS { cola: VecDeque::new() }
    }

    /// Adds `t` at the back of the queue.
    pub fn meter(&mut self, t: String)
        ensures
            final(self)@ == metida(old(self)@, t),
    {
        self.cola.push_back(t);
    }

    /// Takes the text at the front of the queue, if there is one.
    pub fn sacar(&mut self) -> (r: Option<String>)
        ensures
            (r, final(self)@) == sacada(old(self)@),
    {
        self.cola.pop_front()
    }
}

} // verus!
