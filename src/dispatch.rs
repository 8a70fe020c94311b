//! The host's routing of commands and events to the plugin that owns each
//! name, and the packaging of a command's arguments.
use vstd::prelude::*;
use crate::abi::plugin_args_t;
use crate::names::NameTable;
use crate::text::views;

verus! {

/// `m` after plugin `p` claims each of `names` in turn: an unowned name
/// becomes `p`'s, an owned one stays with its owner.
pub open spec fn claim_all(m: Map<Seq<char>, usize>, names: Seq<Seq<char>>, p: usize) -> Map<Seq<char>, usize>
    decreases names.len(),
{
    if names.len() == 0 {
        m
    } else {
        let before = claim_all(m, names.drop_last(), p);
        if before.dom().contains(names.last()) {
            before
        } else {
            before.insert(names.last(), p)
        }
    }
}

/// The names among `names` that were already owned when `p` claimed them.
pub open spec fn conflicts(m: Map<Seq<char>, usize>, names: Seq<Seq<char>>, p: usize) -> Seq<Seq<char>>
    decreases names.len(),
{
    if names.len() == 0 {
        Seq::empty()
    } else {
        let earlier = conflicts(m, names.drop_last(), p);
        if claim_all(m, names.drop_last(), p).dom().contains(names.last()) {
            earlier.push(names.last())
        } else {
            earlier
        }
    }
}

/// Claims each of `names` for plugin `p` in `t`, and returns the names that
/// another claim already held.
fn claim(t: &mut NameTable<usize>, names: &Vec<String>, p: usize) -> (r: Vec<String>)
    requires
        old(t).wf(),
    ensures
        final(t).wf(),
        final(t).view() == claim_all(old(t).view(), views(names@), p),
        views(r@) == conflicts(old(t).view(), views(names@), p),
{
    let mut refused: Vec<String> = Vec::new();
    let mut i: usize = 0;
    let ghost m0 = t.view();
    while i < names.len()
        invariant
            i <= names@.len(),
            t.wf(),
            t.view() == claim_all(m0, views(names@).subrange(0, i as int), p),
            views(refused@) == conflicts(m0, views(names@).subrange(0, i as int), p),
        decreases names@.len() - i,
    {
        let ghost pre = views(names@).subrange(0, i as int);
        let ghost post = views(names@).subrange(0, i + 1);
        assert(post.drop_last() =~= pre);
        assert(post.last() == names@[i as int]@);
        let n = names[i].clone();
        let ghost before = refused@;
        if !t.insert_new(n, p) {
            refused.push(names[i].clone());
            assert(views(refused@) =~= views(before).push(names@[i as int]@));
        }
        i = i + 1;
    }
    assert(views(names@).subrange(0, i as int) =~= views(names@));
    refused
}

/// Which plugin owns each command name and each event name.
pub struct Dispatcher {
    pub commands: NameTable<usize>,
    pub events: NameTable<usize>,
}

impl Dispatcher {
    pub open spec fn wf(&self) -> bool {
        self.commands.wf() && self.events.wf()
    }

    /// A dispatcher that routes nothing.
    pub fn new() -> (r: Dispatcher)
        ensures
            r.wf(),
            r.commands.view() == Map::<Seq<char>, usize>::empty(),
            r.events.view() == Map::<Seq<char>, usize>::empty(),
    {
        Dispatcher { commands: NameTable::new(), events: NameTable::new() }
    }

    /// Records what plugin `p` declared. Each name goes to the first plugin
    /// that declares it; the names that were taken already come back, the
    /// command names first.
    pub fn declare_plugin(&mut self, p: usize, commands: &Vec<String>, events: &Vec<String>) -> (r: (Vec<String>, Vec<String>))
        requires
            old(self).wf(),
        ensures
            final(self).wf(),
            final(self).commands.view() == claim_all(old(self).commands.view(), views(commands@), p),
            final(self).events.view() == claim_all(old(self).events.view(), views(events@), p),
            views(r.0@) == conflicts(old(self).commands.view(), views(commands@), p),
            views(r.1@) == conflicts(old(self).events.view(), views(events@), p),
    {
        let c = claim(&mut self.commands, commands, p);
        let e = claim(&mut self.events, events, p);
        (c, e)
    }

    /// The plugin that owns the command `name`.
    pub fn route_command(&self, name: &String) -> (r: Option<usize>)
        requires
            self.wf(),
        ensures
            r == (if self.commands.view().dom().contains(name@) {
                Some(self.commands.view()[name@])
            } else {
                None
            }),
    {
        match self.commands.get(name) {
            Some(p) => Some(*p),
            None => None,
        }
    }

    /// The plugin that owns the event `name`.
    pub fn route_event(&self, name: &String) -> (r: Option<usize>)
        requires
            self.wf(),
        ensures
            r == (if self.events.view().dom().contains(name@) {
                Some(self.events.view()[name@])
            } else {
                None
            }),
    {
        match self.events.get(name) {
            Some(p) => Some(*p),
            None => None,
        }
    }
}

/// The argument vector for one call: the name first, then the operands;
/// the parse cursor stands at the start.
pub fn package_args(name: &String, operands: &Vec<String>) -> (r: plugin_args_t)
    requires
        operands@.len() < i32::MAX,
    ensures
        r.wf(),
        views(r.args@) == seq![name@] + views(operands@),
        r.position == 0,
{
    let mut args: Vec<String> = Vec::new();
    args.push(name.clone());
    let mut i: usize = 0;
    while i < operands.len()
        invariant
            i <= operands@.len(),
            views(args@) == seq![name@] + views(operands@).subrange(0, i as int),
        decreases operands@.len() - i,
    {
        let ghost before = args@;
        args.push(operands[i].clone());
        assert(views(args@) =~= views(before).push(operands@[i as int]@));
        assert(views(args@) =~= seq![name@] + views(operands@).subrange(0, i + 1));
        i = i + 1;
    }
    assert(views(operands@).subrange(0, i as int) =~= views(operands@));
    let count = args.len() as i32;
    plugin_args_t { args, count, position: 0 }
}

} // verus!
