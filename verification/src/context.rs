//! What this library reads of a request as the RPC layer hands it over.

use vstd::prelude::*;

verus! {

/// How urgent a request is.
#[derive(Clone, Copy, Debug, PartialEq, Eq, Structural, Hash)]
pub enum CommandPri {
    Normal,
    Low,
    High,
}

impl CommandPri {
    /// The place of a priority in the order Low, Normal, High.
    pub open spec fn rank(self) -> int {
        match self {
            CommandPri::Low => 0,
            CommandPri::Normal => 1,
            CommandPri::High => 2,
        }
    }
}

impl Default for CommandPri {
    fn default() -> (p: CommandPri)
        ensures
            p == CommandPri::Normal,
    {
        CommandPri::Normal
    }
}

/// The context of a request. The RPC layer owns its full shape (routing,
/// deadline); this library reads the priority and carries the rest along as
/// the one line of text by which the context appears in diagnostics.
#[derive(Clone, Debug)]
pub struct Context {
    pub priority: CommandPri,
    pub debug_form: String,
}

/// A context as a mathematical value.
pub struct ContextView {
    pub priority: CommandPri,
    pub debug_form: Seq<char>,
}

impl ContextView {
    /// The context of a request that set nothing: normal priority, and
    /// nothing to show.
    pub open spec fn empty() -> ContextView {
        ContextView { priority: CommandPri::Normal, debug_form: Seq::<char>::empty() }
    }
}

impl View for Context {
    type V = ContextView;

    open spec fn view(&self) -> ContextView {
        ContextView { priority: self.priority, debug_form: self.debug_form@ }
    }
}

impl Context {
    pub fn new(priority: CommandPri, debug_form: String) -> (ctx: Context)
        ensures
            ctx@ == (ContextView { priority, debug_form: debug_form@ }),
    {
        Context { priority, debug_form }
    }

    pub fn get_priority(&self) -> (p: CommandPri)
        ensures
            p == self@.priority,
    {
        self.priority
    }

    pub fn set_priority(&mut self, priority: CommandPri)
        ensures
            final(self)@.priority == priority,
            final(self)@.debug_form == old(self)@.debug_form,
    {
        self.priority = priority;
    }
}

impl Default for Context {
    fn default() -> (ctx: Context)
        ensures
            ctx@ == ContextView::empty(),
    {
        Context { priority: CommandPri::Normal, debug_form: String::new() }
    }
}

/// A request to read one key under a transaction's snapshot.
#[derive(Clone, Debug)]
pub struct GetRequest {
    pub context: Context,
    /// The key as the user wrote it.
    pub key: Vec<u8>,
    /// The number of the timestamp to read at.
    pub version: u64,
}

impl GetRequest {
    /// Moves the context out of the request and leaves an empty one behind.
    pub fn take_context(&mut self) -> (ctx: Context)
        ensures
            ctx@ == old(self).context@,
            final(self).context@ == ContextView::empty(),
            final(self).key == old(self).key,
            final(self).version == old(self).version,
    {
        let mut ctx = Context::default();
        std::mem::swap(&mut self.context, &mut ctx);
        ctx
    }

    pub fn get_key(&self) -> (key: &[u8])
        ensures
            key@ == self.key@,
    {
        self.key.as_slice()
    }

    pub fn get_version(&self) -> (version: u64)
        ensures
            version == self.version,
    {
        self.version
    }
}

/// A request to read one key as it is stored, outside any transaction.
#[derive(Clone, Debug)]
pub struct RawGetRequest {
    pub context: Context,
    /// The column family to read from.
    pub cf: String,
    /// The key as the user wrote it.
    pub key: Vec<u8>,
}

impl RawGetRequest {
    /// Moves the context out of the request and leaves an empty one behind.
    pub fn take_context(&mut self) -> (ctx: Context)
        ensures
            ctx@ == old(self).context@,
            final(self).context@ == ContextView::empty(),
            final(self).cf == old(self).cf,
            final(self).key == old(self).key,
    {
        let mut ctx = Context::default();
        std::mem::swap(&mut self.context, &mut ctx);
        ctx
    }

    pub fn get_key(&self) -> (key: &[u8])
        ensures
            key@ == self.key@,
    {
        self.key.as_slice()
    }
}

} // verus!
