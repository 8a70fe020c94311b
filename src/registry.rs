//! The host's registry of prompt-variable callbacks: one callback per name.
//! A name that is already bound is refused, so the first registration stays.
use vstd::prelude::*;
use crate::abi::plugin_error_t;
use crate::names::NameTable;

verus! {

/// Callbacks by name.
pub struct CallbackRegistry<F> {
    pub table: NameTable<F>,
}

impl<F> CallbackRegistry<F> {
    pub open spec fn wf(&self) -> bool {
        self.table.wf()
    }

    /// The registered callbacks by name.
    pub open spec fn view(&self) -> Map<Seq<char>, F> {
        self.table.view()
    }

    /// An empty registry.
    pub fn new() -> (r: CallbackRegistry<F>)
        ensures
            r.wf(),
            r.view() == Map::<Seq<char>, F>::empty(),
    {
        CallbackRegistry { table: NameTable::new() }
    }

    /// Registers `callback` under `name`. A missing name or callback is
    /// refused with `PLUGIN_ERROR_NULL_POINTER`, a name that is already bound
    /// with `PLUGIN_ERROR_INVALID_ARGS`; a refusal changes nothing.
    pub fn register(&mut self, name: Option<String>, callback: Option<F>) -> (r: plugin_error_t)
        requires
            old(self).wf(),
        ensures
            final(self).wf(),
            (name is None || callback is None) ==> r == plugin_error_t::PLUGIN_ERROR_NULL_POINTER
                && final(self).view() == old(self).view(),
            (name is Some && callback is Some && old(self).view().dom().contains(name->0@)) ==> r
                == plugin_error_t::PLUGIN_ERROR_INVALID_ARGS && final(self).view() == old(self).view(),
            (name is Some && callback is Some && !old(self).view().dom().contains(name->0@)) ==> r
                == plugin_error_t::PLUGIN_SUCCESS && final(self).view() == old(self).view().insert(
                name->0@,
                callback->0,
            ),
    {
        match (name, callback) {
            (Some(n), Some(f)) => {
                if self.table.insert_new(n, f) {
                    plugin_error_t::PLUGIN_SUCCESS
                } else {
                    plugin_error_t::PLUGIN_ERROR_INVALID_ARGS
                }
            },
            _ => plugin_error_t::PLUGIN_ERROR_NULL_POINTER,
        }
    }

    /// The callback registered under `name`, if any.
    pub fn lookup(&self, name: &String) -> (r: Option<&F>)
        requires
            self.wf(),
        ensures
            r is None <==> !self.view().dom().contains(name@),
            r matches Some(f) ==> self.view()[name@] == *f,
    {
        self.table.get(name)
    }
}

} // verus!
