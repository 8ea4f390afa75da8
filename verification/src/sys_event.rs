//! System events and the handlers they are broadcast to.
use vstd::prelude::*;
use crate::str_map::StrMap;

verus! {

/// Events raised by the windowing system.
#[derive(Clone, Copy, Debug, PartialEq, Eq, Structural)]
pub enum SystemEvent {
    KeyPressed { key_code: u32 },
    AppQuit,
}

/// Receives system events; identified by its id.
pub trait EventHandler {
    fn handle_event(&self, event: &SystemEvent);

    fn get_id(&self) -> String;
}

/// Event handlers by id.
pub struct EventManager {
    handlers: StrMap<Box<dyn EventHandler>>,
}

impl EventManager {
    /// The ids of the registered handlers.
    pub closed spec fn ids(&self) -> Set<Seq<char>> {
        self.handlers.view().dom()
    }

    pub closed spec fn wf(&self) -> bool {
        self.handlers.wf()
    }

    pub fn new() -> (r: Self)
        ensures
            r.wf(),
            r.ids() == Set::<Seq<char>>::empty(),
    {
        EventManager { handlers: StrMap::new() }
    }

    /// Registers `handler` under the id it reports, replacing a handler with
    /// that id.
    pub fn add_handler(&mut self, handler: Box<dyn EventHandler>)
        requires
            old(self).wf(),
        ensures
            final(self).wf(),
            exists|id: Seq<char>| final(self).ids() == old(self).ids().insert(id),
    {
        let id = handler.get_id();
        let ghost k = id@;
        let ghost h = handler;
        self.handlers.insert(id, handler);
        assert(self.handlers.view() == old(self).handlers.view().insert(k, h));
        proof {
            vstd::map::axiom_map_insert_domain(old(self).handlers.view(), k, h);
        }
        assert(self.ids() =~= old(self).ids().insert(k));
    }

    pub fn remove_handler(&mut self, id: &str)
        requires
            old(self).wf(),
        ensures
            final(self).wf(),
            final(self).ids() == old(self).ids().remove(id@),
    {
        self.handlers.remove(id);
        assert(self.ids() =~= old(self).ids().remove(id@));
    }

    pub fn handler_count(&self) -> (r: usize)
        requires
            self.wf(),
        ensures
            r == self.ids().len(),
    {
        self.handlers.len()
    }

    /// Hands `event` to every registered handler.
    pub fn broadcast(&self, event: &SystemEvent)
        requires
            self.wf(),
    {
        let n = self.handlers.len();
        let mut i: usize = 0;
        while i < n
            invariant
                self.wf(),
                n == self.handlers.entries().len(),
                i <= n,
            decreases n - i,
        {
            let (_, handler) = self.handlers.entry_at(i);
            handler.handle_event(event);
            i = i + 1;
        }
    }
}

} // verus!
