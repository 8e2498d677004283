//! Symbol paths: the fully qualified names of procedures and modules.
use vstd::prelude::*;

verus! {

/// One component of a symbol path.
#[derive(Debug)]
pub enum SymbolNameComponent {
    /// The root of an absolute path.
    Root,
    /// A namespace or module component.
    Component(String),
    /// The final, item-naming component.
    Leaf(String),
}

/// A symbol path component as characters.
pub enum NameComponent {
    Root,
    Component(Seq<char>),
    Leaf(Seq<char>),
}

impl View for SymbolNameComponent {
    type V = NameComponent;

    open spec fn view(&self) -> NameComponent {
        match self {
            SymbolNameComponent::Root => NameComponent::Root,
            SymbolNameComponent::Component(s) => NameComponent::Component(s@),
            SymbolNameComponent::Leaf(s) => NameComponent::Leaf(s@),
        }
    }
}

impl SymbolNameComponent {
    /// A copy of this component.
    pub fn clone_component(&self) -> (r: Self)
        ensures
            r@ == self@,
    {
        match self {
            SymbolNameComponent::Root => SymbolNameComponent::Root,
            SymbolNameComponent::Component(s) => SymbolNameComponent::Component(s.clone()),
            SymbolNameComponent::Leaf(s) => SymbolNameComponent::Leaf(s.clone()),
        }
    }

    /// Whether this component names an item.
    pub fn is_leaf(&self) -> (r: bool)
        ensures
            r == (self@ is Leaf),
    {
        match self {
            SymbolNameComponent::Leaf(_) => true,
            _ => false,
        }
    }
}

/// A path of symbol name components.
#[derive(Debug)]
pub struct SymbolPath {
    pub path: Vec<SymbolNameComponent>,
}

impl View for SymbolPath {
    type V = Seq<NameComponent>;

    open spec fn view(&self) -> Seq<NameComponent> {
        self.path@.map_values(|c: SymbolNameComponent| c@)
    }
}

impl SymbolPath {
    /// A copy of this path.
    pub fn clone_path(&self) -> (r: Self)
        ensures
            r@ == self@,
    {
        let mut path: Vec<SymbolNameComponent> = Vec::new();
        let n = self.path.len();
        let mut i: usize = 0;
        while i < n
            invariant
                n == self.path@.len(),
                i <= n,
                path@.len() == i,
                forall|j: int| 0 <= j < i ==> #[trigger] path@[j]@ == self.path@[j]@,
            decreases n - i,
        {
            path.push(self.path[i].clone_component());
            i = i + 1;
        }
        let r = SymbolPath { path };
        assert(r@ =~= self@);
        r
    }
}

} // verus!
