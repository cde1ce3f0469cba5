//! Catalog of analysis modules and the currently selected entry.

use vstd::prelude::*;

verus! {

/// Whether a module of the catalog is usable now or only announced.
#[derive(Clone, Copy, PartialEq, Eq, Structural, Debug)]
pub enum Availability {
    Available,
    Planned,
}

/// One entry of the module catalog. Immutable after construction.
#[derive(Debug)]
pub struct ModuleDescriptor {
    pub name: String,
    pub description: String,
    pub availability: Availability,
}

/// Mathematical model of a `ModuleDescriptor`.
pub struct SpecDescriptor {
    pub name: Seq<char>,
    pub description: Seq<char>,
    pub availability: Availability,
}

impl View for ModuleDescriptor {
    type V = SpecDescriptor;

    open spec fn view(&self) -> SpecDescriptor {
        SpecDescriptor {
            name: self.name@,
            description: self.description@,
            availability: self.availability,
        }
    }
}

/// Mathematical model of a `ModuleRegistry`.
pub struct SpecRegistry {
    pub modules: Seq<SpecDescriptor>,
    pub selected: Option<int>,
}

impl SpecRegistry {
    /// The selected index, when present, is a valid index into the catalog.
    pub open spec fn wf(self) -> bool {
        self.selected matches Some(i) ==> 0 <= i < self.modules.len()
    }
}

/// What `select` does to the registry: a valid index becomes the selection,
/// any other index leaves the registry untouched.
pub open spec fn spec_select(r: SpecRegistry, index: int) -> SpecRegistry {
    if 0 <= index < r.modules.len() {
        SpecRegistry { modules: r.modules, selected: Some(index) }
    } else {
        r
    }
}

/// Selecting the same index twice leaves the registry exactly as it was
/// after the first selection.
pub proof fn lemma_select_idempotent(r: SpecRegistry, index: int)
    ensures
        spec_select(spec_select(r, index), index) == spec_select(r, index),
{
}

/// The ordered catalog of modules plus the selected index.
pub struct ModuleRegistry {
    modules: Vec<ModuleDescriptor>,
    selected: Option<usize>,
}

impl View for ModuleRegistry {
    type V = SpecRegistry;

    closed spec fn view(&self) -> SpecRegistry {
        SpecRegistry {
            modules: Seq::new(self.modules@.len(), |i: int| self.modules@[i]@),
            selected: match self.selected {
                Some(i) => Some(i as int),
                None => None,
            },
        }
    }
}

impl ModuleRegistry {
    /// A registry over the given catalog; the first entry starts selected
    /// when the catalog is not empty.
    pub fn new(modules: Vec<ModuleDescriptor>) -> (r: ModuleRegistry)
        ensures
            r@.wf(),
            r@.modules == Seq::new(modules@.len(), |i: int| modules@[i]@),
            r@.selected == if modules@.len() > 0 { Some(0int) } else { None::<int> },
    {
        let selected: Option<usize> = if modules.len() > 0 { Some(0) } else { None };
        ModuleRegistry { modules, selected }
    }

    /// Number of catalog entries.
    pub fn len(&self) -> (n: usize)
        ensures
            n == self@.modules.len(),
    {
        self.modules.len()
    }

    /// The entry at a valid index.
    pub fn get(&self, index: usize) -> (d: &ModuleDescriptor)
        requires
            index < self@.modules.len(),
        ensures
            d@ == self@.modules[index as int],
    {
        &self.modules[index]
    }

    /// The currently selected index, if any.
    pub fn selected_index(&self) -> (r: Option<usize>)
        ensures
            match r {
                Some(i) => self@.selected == Some(i as int),
                None => self@.selected is None,
            },
    {
        self.selected
    }

    /// Make `index` the selection if it is valid; otherwise do nothing.
    /// No error is raised for an out-of-range index.
    pub fn select(&mut self, index: usize)
        requires
            old(self)@.wf(),
        ensures
            final(self)@.wf(),
            final(self)@ == spec_select(old(self)@, index as int),
    {
        if index < self.modules.len() {
            self.selected = Some(index);
        }
    }

    /// The descriptor under the selection, or nothing when the catalog is
    /// empty.
    pub fn active(&self) -> (r: Option<&ModuleDescriptor>)
        requires
            self@.wf(),
        ensures
            match self@.selected {
                Some(i) => r matches Some(d) && d@ == self@.modules[i],
                None => r is None,
            },
    {
        match self.selected {
            Some(i) => Some(&self.modules[i]),
            None => None,
        }
    }
}

} // verus!
