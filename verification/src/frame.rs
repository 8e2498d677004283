//! The index spaces of a component being instantiated.
//!
//! A `ComponentFrame` holds, for one component instance under translation,
//! the core wasm index spaces (functions, modules, module instances) and the
//! component model index spaces (component functions, component instances,
//! components). Every definition appends to exactly one of these spaces, so
//! an index is the position of a definition in its space.
use std::rc::Rc;
use vstd::prelude::*;

verus! {

/// `canon lower`: a component function lowered into a core wasm function.
#[derive(Clone, Copy, Debug)]
pub struct CanonLower {
    /// The component function being lowered.
    pub func: u32,
    /// The type of the lowered function.
    pub lower_ty: u32,
}

/// `canon lift`: a core wasm function lifted into a component function.
#[derive(Clone, Copy, Debug)]
pub struct CanonLift {
    /// The component function type of the lifted function.
    pub ty: u32,
    /// The core function being lifted.
    pub func: u32,
}

/// Definition of a core wasm item and where it can come from within a
/// component.
#[derive(Clone, Copy, Debug)]
pub enum CoreDef<'a> {
    /// An export of a previously instantiated core wasm module instance.
    Export(u32, &'a str),
    /// A component function lowered into a core function.
    Lower(CanonLower),
}

impl<'a> CoreDef<'a> {
    /// The lowering that defines this core function; only lowered functions
    /// have one.
    pub fn unwrap_canon_lower(&self) -> (r: &CanonLower)
        requires
            self is Lower,
        ensures
            self matches CoreDef::Lower(l) && *r == l,
    {
        match self {
            CoreDef::Lower(lower) => lower,
            CoreDef::Export(..) => unreached(),
        }
    }
}

/// A core wasm module available to a component.
#[derive(Clone, Copy, Debug)]
pub enum ModuleDef {
    /// A module statically defined within the original component, by its
    /// index among the static modules.
    Static(u32),
    /// A module imported from the host, by its module type.
    Import(u32),
}

/// The translated type of a component item.
#[derive(Clone, Copy, Debug)]
pub enum TypeDef {
    Module(u32),
    ComponentInstance(u32),
    ComponentFunc(u32),
    Component(u32),
    Interface(u32),
    Resource(u32),
}

/// A reference to an item of one of the component index spaces.
#[derive(Clone, Copy, Debug)]
pub enum ComponentItem {
    Func(u32),
    Module(u32),
    Component(u32),
    ComponentInstance(u32),
    /// A type item, already translated.
    Type(TypeDef),
}

/// An instantiation of a nested component with named arguments.
#[derive(Clone, Copy, Debug)]
pub struct ComponentInstantiation<'a> {
    /// The component being instantiated (an index of the components space).
    pub component: u32,
    /// The instantiation arguments.
    pub args: &'a [(&'a str, ComponentItem)],
    /// The type of the resulting instance.
    pub ty: u32,
}

/// A component instance imported from the host.
#[derive(Debug)]
pub struct ComponentInstanceImport {
    pub name: String,
    pub ty: u32,
}

impl ComponentInstanceImport {
    /// A copy of this import.
    pub fn clone_import(&self) -> (r: Self)
        ensures
            r == *self,
    {
        ComponentInstanceImport { name: self.name.clone(), ty: self.ty }
    }
}

/// A component instance of the component instances space.
#[derive(Debug)]
pub enum ComponentInstanceDef<'a> {
    Import(ComponentInstanceImport),
    Instantiated(ComponentInstantiation<'a>),
    Export,
}

impl<'a> ComponentInstanceDef<'a> {
    /// A copy of this instance definition.
    pub fn clone_def(&self) -> (r: Self)
        ensures
            r == *self,
    {
        match self {
            ComponentInstanceDef::Import(import) => ComponentInstanceDef::Import(
                import.clone_import(),
            ),
            ComponentInstanceDef::Instantiated(i) => ComponentInstanceDef::Instantiated(*i),
            ComponentInstanceDef::Export => ComponentInstanceDef::Export,
        }
    }

    /// The host import behind this instance; only imported instances have
    /// one.
    pub fn unwrap_import(&self) -> (r: ComponentInstanceImport)
        requires
            self is Import,
        ensures
            self matches ComponentInstanceDef::Import(i) && r == i,
    {
        match self {
            ComponentInstanceDef::Import(import) => import.clone_import(),
            _ => unreached(),
        }
    }

    /// The instantiation behind this instance; only instantiated instances
    /// have one.
    pub fn unwrap_instantiated(&self) -> (r: &ComponentInstantiation<'a>)
        requires
            self is Instantiated,
        ensures
            self matches ComponentInstanceDef::Instantiated(i) && *r == i,
    {
        match self {
            ComponentInstanceDef::Instantiated(i) => i,
            _ => unreached(),
        }
    }
}

/// A component function of the component functions space.
#[derive(Clone, Copy, Debug)]
pub enum ComponentFuncDef<'a> {
    /// A host-imported component function: the instance it comes from and
    /// its name there.
    Import(u32, &'a str),
    /// A core wasm function lifted into a component function.
    Lifted(CanonLift),
}

impl<'a> ComponentFuncDef<'a> {
    /// The lifting that defines this component function; only lifted
    /// functions have one.
    pub fn unwrap_canon_lift(&self) -> (r: &CanonLift)
        requires
            self is Lifted,
        ensures
            self matches ComponentFuncDef::Lifted(l) && *r == l,
    {
        match self {
            ComponentFuncDef::Lifted(lift) => lift,
            ComponentFuncDef::Import(..) => unreached(),
        }
    }
}

/// The modules and components a nested component closes over.
pub struct ComponentClosure {
    pub modules: Vec<ModuleDef>,
    pub components: Vec<ComponentDef>,
}

/// A component of the components space: a static component together with
/// what it closes over.
pub struct ComponentDef {
    /// The index among the static components.
    pub index: u32,
    pub closure: Rc<ComponentClosure>,
}

/// `Rc::clone`: a second handle on the same shared closure, which is
/// therefore equal to the first.
#[verifier::external_body]
fn share_closure(c: &Rc<ComponentClosure>) -> (r: Rc<ComponentClosure>)
    ensures
        r == *c,
{
    Rc::clone(c)
}

impl ComponentDef {
    /// A copy of this component definition.
    pub fn clone_def(&self) -> (r: Self)
        ensures
            r == *self,
    {
        ComponentDef { index: self.index, closure: share_closure(&self.closure) }
    }
}

/// A core wasm module reference that a nested component closes over.
#[derive(Clone, Copy, Debug)]
pub enum ClosedOverModule {
    /// A module of the enclosing frame's modules space.
    Local(u32),
    /// A module the enclosing frame itself closes over.
    Upvar(u32),
}

/// A component reference that a nested component closes over.
#[derive(Clone, Copy, Debug)]
pub enum ClosedOverComponent {
    Local(u32),
    Upvar(u32),
}

/// Representation of all items which can be defined within a component.
pub enum ComponentItemDef<'a> {
    Component(ComponentDef),
    Instance(ComponentInstanceDef<'a>),
    Func(ComponentFuncDef<'a>),
    Module(ModuleDef),
    Type(TypeDef),
}

impl<'a> ComponentItemDef<'a> {
    /// A copy of this item definition.
    pub fn clone_item(&self) -> (r: Self)
        ensures
            r == *self,
    {
        match self {
            ComponentItemDef::Component(c) => ComponentItemDef::Component(c.clone_def()),
            ComponentItemDef::Instance(i) => ComponentItemDef::Instance(i.clone_def()),
            ComponentItemDef::Func(f) => ComponentItemDef::Func(*f),
            ComponentItemDef::Module(m) => ComponentItemDef::Module(*m),
            ComponentItemDef::Type(t) => ComponentItemDef::Type(*t),
        }
    }

    /// The item that an export named `name` of the imported component
    /// instance `component_instance_idx` stands for, given the export's type.
    /// Root-level component imports are not supported.
    pub fn from_import(name: &'a str, ty: TypeDef, component_instance_idx: u32) -> (r:
        ComponentItemDef<'a>)
        requires
            !(ty is Component),
        ensures
            match ty {
                TypeDef::Module(t) => r == ComponentItemDef::Module(ModuleDef::Import(t)),
                TypeDef::ComponentInstance(t) => r matches ComponentItemDef::Instance(
                    ComponentInstanceDef::Import(i),
                ) && i.name@ == name@ && i.ty == t,
                TypeDef::ComponentFunc(_) => r == ComponentItemDef::Func(
                    ComponentFuncDef::Import(component_instance_idx, name),
                ),
                _ => r == ComponentItemDef::Type(ty),
            },
    {
        match ty {
            TypeDef::Module(t) => ComponentItemDef::Module(ModuleDef::Import(t)),
            TypeDef::ComponentInstance(t) => ComponentItemDef::Instance(
                ComponentInstanceDef::Import(
                    ComponentInstanceImport { name: name.to_owned(), ty: t },
                ),
            ),
            TypeDef::ComponentFunc(_) => ComponentItemDef::Func(
                ComponentFuncDef::Import(component_instance_idx, name),
            ),
            TypeDef::Component(_) => unreached(),
            TypeDef::Interface(_) | TypeDef::Resource(_) => ComponentItemDef::Type(ty),
        }
    }
}

/// A core wasm module instance of the module instances space.
#[derive(Clone, Copy, Debug)]
pub enum ModuleInstanceDef<'a> {
    /// An instance created by instantiating a module (an index of the modules
    /// space) with named module instances as arguments.
    Instantiated { module_idx: u32, args: &'a [(&'a str, u32)] },
    /// A "synthetic" core wasm module which is just a bag of named entities.
    Synthetic(&'a [(&'a str, EntityIndex)]),
}

/// An entity exported by a core wasm module.
#[derive(Clone, Copy, Debug)]
pub enum EntityIndex {
    Function(u32),
    Table(u32),
    Memory(u32),
    Global(u32),
}

/// The index spaces of one component instance under translation.
pub struct ComponentFrame<'a> {
    /// What this component closes over.
    pub closure: ComponentClosure,
    /// The arguments this component was instantiated with, by name.
    pub args: Vec<(&'a str, ComponentItemDef<'a>)>,
    /// Core wasm functions.
    pub funcs: Vec<CoreDef<'a>>,
    /// Core wasm modules.
    pub modules: Vec<ModuleDef>,
    /// Component functions.
    pub component_funcs: Vec<ComponentFuncDef<'a>>,
    /// Core wasm module instances.
    pub module_instances: Vec<ModuleInstanceDef<'a>>,
    /// Component instances.
    pub component_instances: Vec<ComponentInstanceDef<'a>>,
    /// The frames of the nested component instances, by component instance.
    pub frames: Vec<(u32, ComponentFrame<'a>)>,
    /// Components.
    pub components: Vec<ComponentDef>,
}

/// The index space that an item definition belongs to.
pub open spec fn spec_space_len(f: ComponentFrame, item: ComponentItemDef) -> int {
    match item {
        ComponentItemDef::Func(_) => f.component_funcs.len() as int,
        ComponentItemDef::Module(_) => f.modules.len() as int,
        ComponentItemDef::Component(_) => f.components.len() as int,
        ComponentItemDef::Instance(_) => f.component_instances.len() as int,
        ComponentItemDef::Type(_) => 0,
    }
}

/// No index space holds `u32::MAX` items, so every item can be given an index.
pub open spec fn spaces_fit(f: ComponentFrame) -> bool {
    &&& f.funcs.len() < u32::MAX
    &&& f.modules.len() < u32::MAX
    &&& f.component_funcs.len() < u32::MAX
    &&& f.module_instances.len() < u32::MAX
    &&& f.component_instances.len() < u32::MAX
    &&& f.components.len() < u32::MAX
}

/// `new` is `old` with `item` appended to the index space of its kind (a type
/// item is recorded nowhere), all other spaces and the arguments unchanged.
pub open spec fn pushed_item<'a>(
    old: ComponentFrame<'a>,
    new: ComponentFrame<'a>,
    item: ComponentItemDef<'a>,
) -> bool {
    &&& new.closure == old.closure
    &&& new.args == old.args
    &&& new.funcs@ == old.funcs@
    &&& new.module_instances@ == old.module_instances@
    &&& new.frames@ == old.frames@
    &&& new.component_funcs@ == (match item {
        ComponentItemDef::Func(i) => old.component_funcs@.push(i),
        _ => old.component_funcs@,
    })
    &&& new.modules@ == (match item {
        ComponentItemDef::Module(i) => old.modules@.push(i),
        _ => old.modules@,
    })
    &&& new.components@ == (match item {
        ComponentItemDef::Component(i) => old.components@.push(i),
        _ => old.components@,
    })
    &&& new.component_instances@ == (match item {
        ComponentItemDef::Instance(i) => old.component_instances@.push(i),
        _ => old.component_instances@,
    })
}

/// An item reference points into its index space.
pub open spec fn item_in_bounds(f: ComponentFrame, index: ComponentItem) -> bool {
    match index {
        ComponentItem::Func(i) => i < f.component_funcs.len(),
        ComponentItem::Component(i) => i < f.components.len(),
        ComponentItem::ComponentInstance(i) => i < f.component_instances.len(),
        ComponentItem::Module(i) => i < f.modules.len(),
        ComponentItem::Type(_) => true,
    }
}

/// The item definition that an item reference stands for.
pub open spec fn spec_item<'a>(f: ComponentFrame<'a>, index: ComponentItem) -> ComponentItemDef<'a> {
    match index {
        ComponentItem::Func(i) => ComponentItemDef::Func(f.component_funcs@[i as int]),
        ComponentItem::Component(i) => ComponentItemDef::Component(f.components@[i as int]),
        ComponentItem::ComponentInstance(i) => ComponentItemDef::Instance(
            f.component_instances@[i as int],
        ),
        ComponentItem::Module(i) => ComponentItemDef::Module(f.modules@[i as int]),
        ComponentItem::Type(t) => ComponentItemDef::Type(t),
    }
}

/// A closed-over module reference points into its space.
pub open spec fn module_ref_in_bounds(f: ComponentFrame, index: ClosedOverModule) -> bool {
    match index {
        ClosedOverModule::Local(i) => i < f.modules.len(),
        ClosedOverModule::Upvar(i) => i < f.closure.modules.len(),
    }
}

/// The module a closed-over module reference stands for.
pub open spec fn spec_closed_over_module(f: ComponentFrame, index: ClosedOverModule) -> ModuleDef {
    match index {
        ClosedOverModule::Local(i) => f.modules@[i as int],
        ClosedOverModule::Upvar(i) => f.closure.modules@[i as int],
    }
}

/// A closed-over component reference points into its space.
pub open spec fn component_ref_in_bounds(f: ComponentFrame, index: ClosedOverComponent) -> bool {
    match index {
        ClosedOverComponent::Local(i) => i < f.components.len(),
        ClosedOverComponent::Upvar(i) => i < f.closure.components.len(),
    }
}

/// The component a closed-over component reference stands for.
pub open spec fn spec_closed_over_component(
    f: ComponentFrame,
    index: ClosedOverComponent,
) -> ComponentDef {
    match index {
        ClosedOverComponent::Local(i) => f.components@[i as int],
        ClosedOverComponent::Upvar(i) => f.closure.components@[i as int],
    }
}

impl<'a> ComponentFrame<'a> {
    /// A frame with empty index spaces, an empty closure and the given
    /// instantiation arguments.
    pub fn new(args: Vec<(&'a str, ComponentItemDef<'a>)>) -> (r: Self)
        ensures
            r.args == args,
            r.closure.modules@.len() == 0,
            r.closure.components@.len() == 0,
            r.funcs@.len() == 0,
            r.modules@.len() == 0,
            r.component_funcs@.len() == 0,
            r.module_instances@.len() == 0,
            r.component_instances@.len() == 0,
            r.frames@.len() == 0,
            r.components@.len() == 0,
    {
        ComponentFrame {
            closure: ComponentClosure { modules: Vec::new(), components: Vec::new() },
            args,
            funcs: Vec::new(),
            modules: Vec::new(),
            component_funcs: Vec::new(),
            module_instances: Vec::new(),
            component_instances: Vec::new(),
            frames: Vec::new(),
            components: Vec::new(),
        }
    }

    /// The module that a closed-over module reference stands for.
    pub fn closed_over_module(&self, index: &ClosedOverModule) -> (r: ModuleDef)
        requires
            module_ref_in_bounds(*self, *index),
        ensures
            r == spec_closed_over_module(*self, *index),
    {
        match *index {
            ClosedOverModule::Local(i) => self.modules[i as usize],
            ClosedOverModule::Upvar(i) => self.closure.modules[i as usize],
        }
    }

    /// The component that a closed-over component reference stands for.
    pub fn closed_over_component(&self, index: &ClosedOverComponent) -> (r: ComponentDef)
        requires
            component_ref_in_bounds(*self, *index),
        ensures
            r == spec_closed_over_component(*self, *index),
    {
        match *index {
            ClosedOverComponent::Local(i) => self.components[i as usize].clone_def(),
            ClosedOverComponent::Upvar(i) => self.closure.components[i as usize].clone_def(),
        }
    }

    /// The item definition an item reference stands for.
    pub fn item(&self, index: ComponentItem) -> (r: ComponentItemDef<'a>)
        requires
            item_in_bounds(*self, index),
        ensures
            r == spec_item(*self, index),
    {
        match index {
            ComponentItem::Func(i) => ComponentItemDef::Func(self.component_funcs[i as usize]),
            ComponentItem::Component(i) => ComponentItemDef::Component(
                self.components[i as usize].clone_def(),
            ),
            ComponentItem::ComponentInstance(i) => ComponentItemDef::Instance(
                self.component_instances[i as usize].clone_def(),
            ),
            ComponentItem::Module(i) => ComponentItemDef::Module(self.modules[i as usize]),
            ComponentItem::Type(t) => ComponentItemDef::Type(t),
        }
    }

    /// Pushes the component `item` definition provided into the appropriate
    /// index space within this component.
    pub fn push_item(&mut self, item: ComponentItemDef<'a>)
        ensures
            pushed_item(*old(self), *final(self), item),
    {
        match item {
            ComponentItemDef::Func(i) => {
                self.component_funcs.push(i);
            },
            ComponentItemDef::Module(i) => {
                self.modules.push(i);
            },
            ComponentItemDef::Component(i) => {
                self.components.push(i);
            },
            ComponentItemDef::Instance(i) => {
                self.component_instances.push(i);
            },
            ComponentItemDef::Type(_ty) => {},
        }
    }
}

/// Read after write: once an item is pushed into a frame, the last index of
/// its space refers to that item.
pub proof fn lemma_push_item_then_item<'a>(
    old: ComponentFrame<'a>,
    new: ComponentFrame<'a>,
    item: ComponentItemDef<'a>,
)
    requires
        pushed_item(old, new, item),
        !(item is Type),
        spaces_fit(old),
    ensures
        ({
            let idx = spec_space_len(old, item) as u32;
            let index = match item {
                ComponentItemDef::Func(_) => ComponentItem::Func(idx),
                ComponentItemDef::Module(_) => ComponentItem::Module(idx),
                ComponentItemDef::Component(_) => ComponentItem::Component(idx),
                _ => ComponentItem::ComponentInstance(idx),
            };
            item_in_bounds(new, index) && spec_item(new, index) == item
        }),
{
}

} // verus!
