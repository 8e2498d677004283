//! Translation of a linearized Wasm component into its index spaces.
//!
//! Each initializer of a component either records a definition in one index
//! space of the current frame, or asks for work that needs the component's
//! type information or the IR builder (importing an instance, instantiating a
//! core module or a nested component, resolving an export of an imported
//! instance, exporting an instance). `initializer` performs the bookkeeping
//! and names that work; the functions after it complete each kind of work on
//! the frame once its inputs are known.
use vstd::prelude::*;
use crate::symbol::{NameComponent, SymbolNameComponent, SymbolPath};
use crate::frame::{
    component_ref_in_bounds, item_in_bounds, module_ref_in_bounds, pushed_item,
    spec_closed_over_component, spec_closed_over_module, spec_item, CanonLift, CanonLower,
    ClosedOverComponent, ClosedOverModule, ComponentClosure, ComponentDef, ComponentFrame,
    ComponentFuncDef, ComponentInstanceDef, ComponentInstanceImport, ComponentInstantiation,
    ComponentItem, ComponentItemDef, CoreDef, EntityIndex, ModuleDef, ModuleInstanceDef, TypeDef,
};

verus! {

/// The type of an imported component entity, as far as translation reads
/// it.
#[derive(Clone, Copy, Debug)]
pub enum ImportType {
    /// A component instance of the given component type.
    Instance(u32),
    /// Any other kind of entity (module, function, value, type, component).
    Other,
}

/// The modules and components a nested component definition closes over.
pub struct ClosedOverVars {
    pub modules: Vec<ClosedOverModule>,
    pub components: Vec<ClosedOverComponent>,
}

/// One step of the linearized component.
pub enum LocalInitializer<'a> {
    Import(&'a str, ImportType),
    Lower(CanonLower),
    Lift(CanonLift),
    Resource,
    ResourceNew,
    ResourceRep,
    ResourceDrop,
    ResourceDropAsync,
    ModuleStatic(u32),
    ModuleInstantiate(u32, &'a [(&'a str, u32)]),
    ModuleSynthetic(&'a [(&'a str, EntityIndex)]),
    ComponentStatic(u32, ClosedOverVars),
    ComponentInstantiate(ComponentInstantiation<'a>),
    ComponentSynthetic,
    AliasExportFunc(u32, &'a str),
    AliasExportTable,
    AliasExportGlobal,
    AliasExportMemory,
    AliasComponentExport(u32, &'a str),
    AliasModule,
    AliasComponent,
    Export(&'a str, ComponentItem),
}

/// Initializers that translation does not support.
#[derive(Clone, Copy, Debug)]
pub enum Unsupported {
    /// Importing an entity that is not a component instance, with no
    /// instantiation argument of that name.
    ImportKind,
    ResourceInitializer,
    ResourceCreation,
    ResourceRepresentation,
    ResourceDropping,
    SyntheticComponent,
    TableExport,
    GlobalExport,
    ModuleAlias,
    ComponentAlias,
    /// Exporting a module or a component.
    ExportKind,
    /// A module instance passed as an argument to a module instantiation.
    InstantiatedModuleArgument,
}

/// The work an initializer leaves once its bookkeeping is done.
pub enum InitializerWork<'a> {
    /// Nothing is left.
    Done,
    /// Import the component instance `name` of the given component type:
    /// translate the type, then call `component_import`.
    ImportInstance { name: &'a str, ty: u32 },
    /// Translate the static module `static_module` instantiated with `args`
    /// (see `module_import_args`).
    InstantiateModule { static_module: u32, args: &'a [(&'a str, u32)] },
    /// Translate the static component `static_component` on a new frame with
    /// these arguments, then call `finish_component_instantiation`.
    InstantiateComponent {
        instantiation: ComponentInstantiation<'a>,
        static_component: u32,
        args: Vec<(&'a str, ComponentItemDef<'a>)>,
    },
    /// Look up the type of the export `name` of the imported instance
    /// `import` (instance `instance` of the frame), then call
    /// `alias_component_export`.
    AliasImportExport { instance: u32, import: ComponentInstanceImport, name: &'a str },
    /// Export the component instance `instance` (see `component_export`).
    ExportInstance(u32),
}

/// The last argument named `name`, if any.
pub open spec fn spec_find_arg<'a>(args: Seq<(&'a str, ComponentItemDef<'a>)>, name: Seq<char>) -> Option<int>
    decreases args.len(),
{
    if args.len() == 0 {
        None
    } else if args.last().0@ == name {
        Some(args.len() - 1)
    } else {
        spec_find_arg(args.drop_last(), name)
    }
}

/// A found argument is one of the arguments, and carries the name sought.
proof fn lemma_find_arg<'a>(args: Seq<(&'a str, ComponentItemDef<'a>)>, name: Seq<char>)
    ensures
        spec_find_arg(args, name) matches Some(k) ==> 0 <= k < args.len() && args[k].0@ == name,
    decreases args.len(),
{
    if args.len() > 0 && args.last().0@ != name {
        lemma_find_arg(args.drop_last(), name);
    }
}

/// What the frame must hold for `init` to be applied to it: every index it
/// uses points into its space and refers to a definition of the kind it
/// needs.
pub open spec fn initializer_applies(f: ComponentFrame, init: LocalInitializer) -> bool {
    match init {
        LocalInitializer::ModuleInstantiate(m, _) => m < f.modules.len() && f.modules@[m as int] is Static,
        LocalInitializer::ComponentStatic(_, vars) => {
            &&& forall|i: int| 0 <= i < vars.modules.len() ==> module_ref_in_bounds(f, #[trigger] vars.modules@[i])
            &&& forall|i: int| 0 <= i < vars.components.len() ==> component_ref_in_bounds(f, #[trigger] vars.components@[i])
        },
        LocalInitializer::ComponentInstantiate(inst) => {
            &&& inst.component < f.components.len()
            &&& forall|i: int| 0 <= i < inst.args@.len() ==> item_in_bounds(f, (#[trigger] inst.args@[i]).1)
        },
        LocalInitializer::AliasComponentExport(i, _) => i < f.component_instances.len() && f.component_instances@[i as int] is Import,
        LocalInitializer::Export(_, ComponentItem::Func(i)) => i < f.component_funcs.len(),
        _ => true,
    }
}

/// Only the listed spaces changed between `old` and `new`.
pub open spec fn unchanged_but<'a>(
    old: ComponentFrame<'a>,
    new: ComponentFrame<'a>,
    funcs: bool,
    modules: bool,
    component_funcs: bool,
    module_instances: bool,
    components: bool,
    component_instances: bool,
) -> bool {
    &&& new.closure == old.closure
    &&& new.args == old.args
    &&& new.frames@ == old.frames@
    &&& (!funcs ==> new.funcs@ == old.funcs@)
    &&& (!modules ==> new.modules@ == old.modules@)
    &&& (!component_funcs ==> new.component_funcs@ == old.component_funcs@)
    &&& (!module_instances ==> new.module_instances@ == old.module_instances@)
    &&& (!components ==> new.components@ == old.components@)
    &&& (!component_instances ==> new.component_instances@ == old.component_instances@)
}

/// The frame is left exactly as it was.
pub open spec fn frame_unchanged<'a>(old: ComponentFrame<'a>, new: ComponentFrame<'a>) -> bool {
    unchanged_but(old, new, false, false, false, false, false, false)
}

/// The error an unsupported initializer is reported with.
pub open spec fn spec_unsupported(init: LocalInitializer) -> Option<Unsupported> {
    match init {
        LocalInitializer::Resource => Some(Unsupported::ResourceInitializer),
        LocalInitializer::ResourceNew => Some(Unsupported::ResourceCreation),
        LocalInitializer::ResourceRep => Some(Unsupported::ResourceRepresentation),
        LocalInitializer::ResourceDrop => Some(Unsupported::ResourceDropping),
        LocalInitializer::ResourceDropAsync => Some(Unsupported::ResourceDropping),
        LocalInitializer::ComponentSynthetic => Some(Unsupported::SyntheticComponent),
        LocalInitializer::AliasExportTable => Some(Unsupported::TableExport),
        LocalInitializer::AliasExportGlobal => Some(Unsupported::GlobalExport),
        LocalInitializer::AliasModule => Some(Unsupported::ModuleAlias),
        LocalInitializer::AliasComponent => Some(Unsupported::ComponentAlias),
        LocalInitializer::Export(_, ComponentItem::Module(_)) => Some(Unsupported::ExportKind),
        LocalInitializer::Export(_, ComponentItem::Component(_)) => Some(Unsupported::ExportKind),
        _ => None,
    }
}

/// Finds the last instantiation argument named `name`.
fn find_arg<'a>(args: &Vec<(&'a str, ComponentItemDef<'a>)>, name: &str) -> (r: Option<usize>)
    ensures
        match spec_find_arg(args@, name@) {
            Some(i) => r matches Some(k) && k as int == i && i < args@.len(),
            None => r is None,
        },
{
    proof {
        lemma_find_arg(args@, name@);
    }
    let mut i = args.len();
    assert(args@.take(i as int) =~= args@);
    while i > 0
        invariant
            i <= args@.len(),
            spec_find_arg(args@, name@) == spec_find_arg(args@.take(i as int), name@),
        decreases i,
    {
        assert(args@.take(i as int).drop_last() =~= args@.take(i - 1));
        if crate::text::str_eq(args[i - 1].0, name) {
            return Some(i - 1);
        }
        i = i - 1;
    }
    None
}

/// Applies one initializer of a component to its frame.
///
/// An initializer that only defines an item appends it to the index space of
/// its kind; an unsupported one is refused with the frame unchanged; the
/// others record what they can and name the remaining work.
pub fn initializer<'a>(frame: &mut ComponentFrame<'a>, init: &'a LocalInitializer<'a>) -> (r: Result<
    InitializerWork<'a>,
    Unsupported,
>)
    requires
        initializer_applies(*old(frame), *init),
    ensures
        spec_unsupported(*init) matches Some(e) ==> r == Err::<InitializerWork, _>(e) && frame_unchanged(*old(frame), *final(frame)),
        match *init {
            LocalInitializer::Import(name, ty) => match spec_find_arg(old(frame).args@, name@) {
                Some(k) => r matches Ok(InitializerWork::Done) && pushed_item(*old(frame), *final(frame), old(frame).args@[k].1),
                None => match ty {
                    ImportType::Instance(t) => r == Ok::<_, Unsupported>(InitializerWork::ImportInstance { name, ty: t }) && frame_unchanged(*old(frame), *final(frame)),
                    ImportType::Other => r == Err::<InitializerWork, _>(Unsupported::ImportKind) && frame_unchanged(*old(frame), *final(frame)),
                },
            },
            LocalInitializer::Lower(lower) => r matches Ok(InitializerWork::Done)
                && final(frame).funcs@ == old(frame).funcs@.push(CoreDef::Lower(lower))
                && unchanged_but(*old(frame), *final(frame), true, false, false, false, false, false),
            LocalInitializer::Lift(lift) => r matches Ok(InitializerWork::Done)
                && final(frame).component_funcs@ == old(frame).component_funcs@.push(ComponentFuncDef::Lifted(lift))
                && unchanged_but(*old(frame), *final(frame), false, false, true, false, false, false),
            LocalInitializer::ModuleStatic(m) => r matches Ok(InitializerWork::Done)
                && final(frame).modules@ == old(frame).modules@.push(ModuleDef::Static(m))
                && unchanged_but(*old(frame), *final(frame), false, true, false, false, false, false),
            LocalInitializer::ModuleInstantiate(m, args) => old(frame).modules@[m as int] matches ModuleDef::Static(s)
                && r == Ok::<_, Unsupported>(InitializerWork::InstantiateModule { static_module: s, args })
                && final(frame).module_instances@ == old(frame).module_instances@.push(ModuleInstanceDef::Instantiated { module_idx: m, args })
                && unchanged_but(*old(frame), *final(frame), false, false, false, true, false, false),
            LocalInitializer::ModuleSynthetic(entities) => r matches Ok(InitializerWork::Done)
                && final(frame).module_instances@ == old(frame).module_instances@.push(ModuleInstanceDef::Synthetic(entities))
                && unchanged_but(*old(frame), *final(frame), false, false, false, true, false, false),
            LocalInitializer::ComponentStatic(idx, vars) => r matches Ok(InitializerWork::Done)
                && final(frame).components@.len() == old(frame).components@.len() + 1
                && final(frame).components@.drop_last() == old(frame).components@
                && final(frame).components@.last().index == idx
                && final(frame).components@.last().closure.modules@ == vars.modules@.map_values(|m: ClosedOverModule| spec_closed_over_module(*old(frame), m))
                && final(frame).components@.last().closure.components@ == vars.components@.map_values(|c: ClosedOverComponent| spec_closed_over_component(*old(frame), c))
                && unchanged_but(*old(frame), *final(frame), false, false, false, false, true, false),
            LocalInitializer::ComponentInstantiate(inst) => (r matches Ok(InitializerWork::InstantiateComponent { instantiation, static_component, args })
                && instantiation == inst
                && static_component == old(frame).components@[inst.component as int].index
                && args@.len() == inst.args@.len()
                && forall|i: int| 0 <= i < args@.len() ==> (#[trigger] args@[i]).0 == inst.args@[i].0 && args@[i].1 == spec_item(*old(frame), inst.args@[i].1))
                && frame_unchanged(*old(frame), *final(frame)),
            LocalInitializer::AliasExportFunc(mi, name) => r matches Ok(InitializerWork::Done)
                && final(frame).funcs@ == old(frame).funcs@.push(CoreDef::Export(mi, name))
                && unchanged_but(*old(frame), *final(frame), true, false, false, false, false, false),
            LocalInitializer::AliasExportMemory => r matches Ok(InitializerWork::Done) && frame_unchanged(*old(frame), *final(frame)),
            LocalInitializer::AliasComponentExport(i, name) => (r matches Ok(InitializerWork::AliasImportExport { instance, import, name: n })
                && instance == i && n == name
                && old(frame).component_instances@[i as int] == ComponentInstanceDef::Import(import))
                && frame_unchanged(*old(frame), *final(frame)),
            LocalInitializer::Export(_, ComponentItem::Func(i)) => r matches Ok(InitializerWork::Done)
                && final(frame).component_funcs@ == old(frame).component_funcs@.push(old(frame).component_funcs@[i as int])
                && unchanged_but(*old(frame), *final(frame), false, false, true, false, false, false),
            LocalInitializer::Export(_, ComponentItem::ComponentInstance(i)) => r == Ok::<_, Unsupported>(InitializerWork::ExportInstance(i))
                && frame_unchanged(*old(frame), *final(frame)),
            LocalInitializer::Export(_, ComponentItem::Type(_)) => r matches Ok(InitializerWork::Done) && frame_unchanged(*old(frame), *final(frame)),
            _ => true,
        },
{
    match init {
        LocalInitializer::Import(name, ty) => {
            match find_arg(&frame.args, *name) {
                Some(k) => {
                    let arg = frame.args[k].1.clone_item();
                    frame.push_item(arg);
                    Ok(InitializerWork::Done)
                },
                None => match ty {
                    ImportType::Instance(t) => Ok(InitializerWork::ImportInstance { name: *name, ty: *t }),
                    ImportType::Other => Err(Unsupported::ImportKind),
                },
            }
        },
        LocalInitializer::Lower(lower) => {
            frame.funcs.push(CoreDef::Lower(*lower));
            Ok(InitializerWork::Done)
        },
        LocalInitializer::Lift(lift) => {
            frame.component_funcs.push(ComponentFuncDef::Lifted(*lift));
            Ok(InitializerWork::Done)
        },
        LocalInitializer::Resource => Err(Unsupported::ResourceInitializer),
        LocalInitializer::ResourceNew => Err(Unsupported::ResourceCreation),
        LocalInitializer::ResourceRep => Err(Unsupported::ResourceRepresentation),
        LocalInitializer::ResourceDrop | LocalInitializer::ResourceDropAsync => Err(
            Unsupported::ResourceDropping,
        ),
        LocalInitializer::ModuleStatic(m) => {
            frame.modules.push(ModuleDef::Static(*m));
            Ok(InitializerWork::Done)
        },
        LocalInitializer::ModuleInstantiate(m, args) => {
            frame.module_instances.push(ModuleInstanceDef::Instantiated { module_idx: *m, args: *args });
            match frame.modules[*m as usize] {
                ModuleDef::Static(s) => Ok(InitializerWork::InstantiateModule { static_module: s, args: *args }),
                ModuleDef::Import(_) => unreached(),
            }
        },
        LocalInitializer::ModuleSynthetic(entities) => {
            frame.module_instances.push(ModuleInstanceDef::Synthetic(*entities));
            Ok(InitializerWork::Done)
        },
        LocalInitializer::ComponentStatic(idx, vars) => {
            let def = ComponentDef {
                index: *idx,
                closure: std::rc::Rc::new(closure_of(frame, vars)),
            };
            frame.components.push(def);
            Ok(InitializerWork::Done)
        },
        LocalInitializer::ComponentInstantiate(inst) => {
            let static_component = frame.components[inst.component as usize].index;
            let mut args: Vec<(&'a str, ComponentItemDef<'a>)> = Vec::new();
            let n = inst.args.len();
            let mut i: usize = 0;
            while i < n
                invariant
                    n == inst.args@.len(),
                    i <= n,
                    forall|j: int| 0 <= j < inst.args@.len() ==> item_in_bounds(*frame, (#[trigger] inst.args@[j]).1),
                    args@.len() == i,
                    forall|j: int| 0 <= j < i ==> (#[trigger] args@[j]).0 == inst.args@[j].0 && args@[j].1 == spec_item(*frame, inst.args@[j].1),
                decreases n - i,
            {
                let (name, item) = inst.args[i];
                args.push((name, frame.item(item)));
                i = i + 1;
            }
            Ok(InitializerWork::InstantiateComponent { instantiation: *inst, static_component, args })
        },
        LocalInitializer::ComponentSynthetic => Err(Unsupported::SyntheticComponent),
        LocalInitializer::AliasExportFunc(mi, name) => {
            frame.funcs.push(CoreDef::Export(*mi, *name));
            Ok(InitializerWork::Done)
        },
        LocalInitializer::AliasExportTable => Err(Unsupported::TableExport),
        LocalInitializer::AliasExportGlobal => Err(Unsupported::GlobalExport),
        LocalInitializer::AliasExportMemory => {
            // Rust-compiled code has a single memory instance: nothing to record.
            Ok(InitializerWork::Done)
        },
        LocalInitializer::AliasComponentExport(i, name) => {
            let import = frame.component_instances[*i as usize].unwrap_import();
            Ok(InitializerWork::AliasImportExport { instance: *i, import, name: *name })
        },
        LocalInitializer::AliasModule => Err(Unsupported::ModuleAlias),
        LocalInitializer::AliasComponent => Err(Unsupported::ComponentAlias),
        LocalInitializer::Export(_name, item) => match item {
            ComponentItem::Func(i) => {
                let f = frame.component_funcs[*i as usize];
                frame.component_funcs.push(f);
                Ok(InitializerWork::Done)
            },
            ComponentItem::ComponentInstance(i) => Ok(InitializerWork::ExportInstance(*i)),
            ComponentItem::Type(_) => Ok(InitializerWork::Done),
            ComponentItem::Module(_) | ComponentItem::Component(_) => Err(Unsupported::ExportKind),
        },
    }
}

/// The closure of a nested component: the modules and components it closes
/// over, as the frame defines them.
fn closure_of<'a>(frame: &ComponentFrame<'a>, vars: &ClosedOverVars) -> (r: ComponentClosure)
    requires
        forall|i: int| 0 <= i < vars.modules.len() ==> module_ref_in_bounds(*frame, #[trigger] vars.modules@[i]),
        forall|i: int| 0 <= i < vars.components.len() ==> component_ref_in_bounds(*frame, #[trigger] vars.components@[i]),
    ensures
        r.modules@ == vars.modules@.map_values(|m: ClosedOverModule| spec_closed_over_module(*frame, m)),
        r.components@ == vars.components@.map_values(|c: ClosedOverComponent| spec_closed_over_component(*frame, c)),
{
    let mut modules: Vec<ModuleDef> = Vec::new();
    let mut i: usize = 0;
    while i < vars.modules.len()
        invariant
            i <= vars.modules@.len(),
            forall|j: int| 0 <= j < vars.modules.len() ==> module_ref_in_bounds(*frame, #[trigger] vars.modules@[j]),
            modules@ == vars.modules@.take(i as int).map_values(|m: ClosedOverModule| spec_closed_over_module(*frame, m)),
        decreases vars.modules@.len() - i,
    {
        modules.push(frame.closed_over_module(&vars.modules[i]));
        assert(vars.modules@.take(i + 1).drop_last() =~= vars.modules@.take(i as int));
        i = i + 1;
        assert(modules@ =~= vars.modules@.take(i as int).map_values(|m: ClosedOverModule| spec_closed_over_module(*frame, m)));
    }
    let mut components: Vec<ComponentDef> = Vec::new();
    let mut i: usize = 0;
    while i < vars.components.len()
        invariant
            i <= vars.components@.len(),
            forall|j: int| 0 <= j < vars.components.len() ==> component_ref_in_bounds(*frame, #[trigger] vars.components@[j]),
            components@ == vars.components@.take(i as int).map_values(|c: ClosedOverComponent| spec_closed_over_component(*frame, c)),
        decreases vars.components@.len() - i,
    {
        components.push(frame.closed_over_component(&vars.components[i]));
        assert(vars.components@.take(i + 1).drop_last() =~= vars.components@.take(i as int));
        i = i + 1;
        assert(components@ =~= vars.components@.take(i as int).map_values(|c: ClosedOverComponent| spec_closed_over_component(*frame, c)));
    }
    assert(vars.modules@.take(vars.modules@.len() as int) =~= vars.modules@);
    assert(vars.components@.take(vars.components@.len() as int) =~= vars.components@);
    ComponentClosure { modules, components }
}

/// A parsed nested component: its initializers and its exports.
pub struct ParsedComponent<'a> {
    pub initializers: Vec<LocalInitializer<'a>>,
    pub exports: Vec<(&'a str, ComponentItem)>,
}

/// A component function to be exported: its export name and the lifting
/// that defines it.
#[derive(Clone, Copy, Debug)]
pub struct ExportLift<'a> {
    pub name: &'a str,
    pub lift: CanonLift,
}

/// Records the imported component instance `name` once its type has been
/// translated; an import of anything but a component instance is refused
/// before this point.
pub fn component_import<'a>(frame: &mut ComponentFrame<'a>, name: &str, ty: TypeDef)
    requires
        ty is ComponentInstance,
    ensures
        final(frame).component_instances@.len() == old(frame).component_instances@.len() + 1,
        final(frame).component_instances@.drop_last() == old(frame).component_instances@,
        final(frame).component_instances@.last() matches ComponentInstanceDef::Import(i)
            && i.name@ == name@ && ty == TypeDef::ComponentInstance(i.ty),
        unchanged_but(*old(frame), *final(frame), false, false, false, false, false, true),
{
    let t = match ty {
        TypeDef::ComponentInstance(t) => t,
        _ => unreached(),
    };
    frame.component_instances.push(
        ComponentInstanceDef::Import(ComponentInstanceImport { name: name.to_owned(), ty: t }),
    );
    assert(frame.component_instances@.drop_last() =~= old(frame).component_instances@);
}

/// Records a nested component instance once its own frame has been
/// translated; returns the index of the new instance.
pub fn finish_component_instantiation<'a>(
    frame: &mut ComponentFrame<'a>,
    instantiation: ComponentInstantiation<'a>,
    nested: ComponentFrame<'a>,
) -> (r: u32)
    requires
        old(frame).component_instances.len() < u32::MAX,
    ensures
        r == old(frame).component_instances.len(),
        final(frame).component_instances@ == old(frame).component_instances@.push(
            ComponentInstanceDef::Instantiated(instantiation),
        ),
        final(frame).frames@ == old(frame).frames@.push((r, nested)),
        final(frame).closure == old(frame).closure,
        final(frame).args == old(frame).args,
        final(frame).funcs@ == old(frame).funcs@,
        final(frame).modules@ == old(frame).modules@,
        final(frame).component_funcs@ == old(frame).component_funcs@,
        final(frame).module_instances@ == old(frame).module_instances@,
        final(frame).components@ == old(frame).components@,
{
    let idx = frame.component_instances.len() as u32;
    frame.component_instances.push(ComponentInstanceDef::Instantiated(instantiation));
    frame.frames.push((idx, nested));
    idx
}

/// Records the item that the export `name` of an imported instance stands
/// for, once the export's type has been looked up.
pub fn alias_component_export<'a>(
    frame: &mut ComponentFrame<'a>,
    name: &'a str,
    ty: TypeDef,
    component_instance_idx: u32,
)
    requires
        !(ty is Component),
    ensures
        exists|item: ComponentItemDef<'a>|
            pushed_item(*old(frame), *final(frame), item) && match ty {
                TypeDef::Module(t) => item == ComponentItemDef::Module(ModuleDef::Import(t)),
                TypeDef::ComponentInstance(t) => item matches ComponentItemDef::Instance(
                    ComponentInstanceDef::Import(i),
                ) && i.name@ == name@ && i.ty == t,
                TypeDef::ComponentFunc(_) => item == ComponentItemDef::Func(
                    ComponentFuncDef::Import(component_instance_idx, name),
                ),
                _ => item == ComponentItemDef::Type(ty),
            },
{
    let def = ComponentItemDef::from_import(name, ty, component_instance_idx);
    frame.push_item(def);
}

/// The frame of the nested component instance `idx`, when it was recorded.
pub open spec fn spec_find_frame<'a>(frames: Seq<(u32, ComponentFrame<'a>)>, idx: u32) -> Option<int>
    decreases frames.len(),
{
    if frames.len() == 0 {
        None
    } else if frames.last().0 == idx {
        Some(frames.len() - 1)
    } else {
        spec_find_frame(frames.drop_last(), idx)
    }
}

proof fn lemma_find_frame<'a>(frames: Seq<(u32, ComponentFrame<'a>)>, idx: u32)
    ensures
        spec_find_frame(frames, idx) matches Some(k) ==> 0 <= k < frames.len() && frames[k].0 == idx,
    decreases frames.len(),
{
    if frames.len() > 0 && frames.last().0 != idx {
        lemma_find_frame(frames.drop_last(), idx);
    }
}

fn find_frame<'a>(frames: &Vec<(u32, ComponentFrame<'a>)>, idx: u32) -> (r: Option<usize>)
    ensures
        match spec_find_frame(frames@, idx) {
            Some(i) => r matches Some(k) && k as int == i && i < frames@.len(),
            None => r is None,
        },
{
    proof {
        lemma_find_frame(frames@, idx);
    }
    let mut i = frames.len();
    assert(frames@.take(i as int) =~= frames@);
    while i > 0
        invariant
            i <= frames@.len(),
            spec_find_frame(frames@, idx) == spec_find_frame(frames@.take(i as int), idx),
        decreases i,
    {
        assert(frames@.take(i as int).drop_last() =~= frames@.take(i - 1));
        if frames[i - 1].0 == idx {
            return Some(i - 1);
        }
        i = i - 1;
    }
    None
}

/// What exporting the component instance `idx` reads: the instance is a
/// nested instantiation of a known static component, whose frame was
/// recorded, and every function that static component exports is a lifting
/// in that frame.
pub open spec fn component_export_applies<'a>(
    frame: ComponentFrame<'a>,
    idx: u32,
    nested_components: Seq<ParsedComponent<'a>>,
) -> bool {
    &&& idx < frame.component_instances.len()
    &&& frame.component_instances@[idx as int] matches ComponentInstanceDef::Instantiated(inst)
    &&& inst.component < frame.components.len()
    &&& frame.components@[inst.component as int].index < nested_components.len()
    &&& spec_find_frame(frame.frames@, idx) matches Some(k)
    &&& forall|j: int| 0 <= j < nested_components[frame.components@[inst.component as int].index as int].exports@.len()
        ==> ((#[trigger] nested_components[frame.components@[inst.component as int].index as int].exports@[j]).1 matches ComponentItem::Func(f)
        ==> f < frame.frames@[k].1.component_funcs.len() && frame.frames@[k].1.component_funcs@[f as int] is Lifted)
}

/// The exported functions of a static component, in export order, with the
/// liftings that define them in `nested`.
pub open spec fn spec_export_lifts<'a>(exports: Seq<(&'a str, ComponentItem)>, nested: ComponentFrame<'a>) -> Seq<ExportLift<'a>>
    decreases exports.len(),
{
    if exports.len() == 0 {
        Seq::empty()
    } else {
        let prev = spec_export_lifts(exports.drop_last(), nested);
        match exports.last().1 {
            ComponentItem::Func(f) => prev.push(ExportLift {
                name: exports.last().0,
                lift: nested.component_funcs@[f as int]->Lifted_0,
            }),
            _ => prev,
        }
    }
}

/// Exports the nested component instance `idx`: lists the functions its
/// static component exports, each with the lifting that defines it in the
/// instance's frame, and records the export as a new component instance.
pub fn component_export<'a>(
    frame: &mut ComponentFrame<'a>,
    idx: u32,
    nested_components: &[ParsedComponent<'a>],
) -> (r: Vec<ExportLift<'a>>)
    requires
        component_export_applies(*old(frame), idx, nested_components@),
    ensures
        ({
            let inst = old(frame).component_instances@[idx as int]->Instantiated_0;
            let s = old(frame).components@[inst.component as int].index;
            let k = spec_find_frame(old(frame).frames@, idx)->Some_0;
            r@ == spec_export_lifts(nested_components@[s as int].exports@, old(frame).frames@[k].1)
        }),
        final(frame).component_instances@ == old(frame).component_instances@.push(ComponentInstanceDef::Export),
        unchanged_but(*old(frame), *final(frame), false, false, false, false, false, true),
{
    let instance = frame.component_instances[idx as usize].unwrap_instantiated();
    let static_component_idx = frame.components[instance.component as usize].index;
    let parsed = &nested_components[static_component_idx as usize];
    let k = match find_frame(&frame.frames, idx) {
        Some(k) => k,
        None => unreached(),
    };
    let nested = &frame.frames[k].1;
    let mut lifts: Vec<ExportLift<'a>> = Vec::new();
    let n = parsed.exports.len();
    let mut i: usize = 0;
    while i < n
        invariant
            n == parsed.exports@.len(),
            i <= n,
            forall|j: int| 0 <= j < parsed.exports@.len() ==> ((#[trigger] parsed.exports@[j]).1 matches ComponentItem::Func(f)
                ==> f < nested.component_funcs.len() && nested.component_funcs@[f as int] is Lifted),
            lifts@ == spec_export_lifts(parsed.exports@.take(i as int), *nested),
        decreases n - i,
    {
        let (name, item) = parsed.exports[i];
        assert(parsed.exports@.take(i + 1).drop_last() =~= parsed.exports@.take(i as int));
        match item {
            ComponentItem::Func(f) => {
                let lift = *nested.component_funcs[f as usize].unwrap_canon_lift();
                lifts.push(ExportLift { name, lift });
            },
            _ => {
                // only exported functions are of interest
            },
        }
        i = i + 1;
    }
    assert(parsed.exports@.take(n as int) =~= parsed.exports@);
    frame.component_instances.push(ComponentInstanceDef::Export);
    lifts
}

/// What resolving the core function behind a lifting reads: the lifted
/// function is an export of an instance of a static module.
pub open spec fn core_export_resolves(frame: ComponentFrame, lift: CanonLift) -> bool {
    &&& lift.func < frame.funcs.len()
    &&& frame.funcs@[lift.func as int] matches CoreDef::Export(mi, _)
    &&& mi < frame.module_instances.len()
    &&& frame.module_instances@[mi as int] matches ModuleInstanceDef::Instantiated { module_idx, .. }
    &&& module_idx < frame.modules.len()
    &&& frame.modules@[module_idx as int] is Static
}

/// The core wasm function behind a lifting: the static module whose
/// instance exports it, and the export name.
fn core_module_export<'a>(frame: &ComponentFrame<'a>, lift: &CanonLift) -> (r: (u32, &'a str))
    requires
        core_export_resolves(*frame, *lift),
    ensures
        ({
            &&& frame.funcs@[lift.func as int] matches CoreDef::Export(mi, name)
            &&& r.1 == name
            &&& frame.module_instances@[mi as int] matches ModuleInstanceDef::Instantiated { module_idx, .. }
            &&& frame.modules@[module_idx as int] == ModuleDef::Static(r.0)
        }),
{
    match frame.funcs[lift.func as usize] {
        CoreDef::Export(mi, name) => match frame.module_instances[mi as usize] {
            ModuleInstanceDef::Instantiated { module_idx, args: _ } => match frame.modules[module_idx as usize] {
                ModuleDef::Static(s) => (s, name),
                ModuleDef::Import(_) => unreached(),
            },
            ModuleInstanceDef::Synthetic(_) => unreached(),
        },
        CoreDef::Lower(_) => unreached(),
    }
}

/// A parsed core module, as far as naming its functions goes: its name,
/// its exports (each name once, as wasm requires) and the names of its
/// functions by index.
pub struct ParsedModule {
    pub name: String,
    pub exports: Vec<(String, EntityIndex)>,
    pub func_names: Vec<String>,
}

/// The last export named `name`, if any (export names are distinct, so it
/// is the only one).
pub open spec fn spec_find_export(exports: Seq<(String, EntityIndex)>, name: Seq<char>) -> Option<int>
    decreases exports.len(),
{
    if exports.len() == 0 {
        None
    } else if exports.last().0@ == name {
        Some(exports.len() - 1)
    } else {
        spec_find_export(exports.drop_last(), name)
    }
}

/// The static module and export name behind a lifting.
pub open spec fn spec_core_export(frame: ComponentFrame, lift: CanonLift) -> (u32, Seq<char>) {
    match frame.funcs@[lift.func as int] {
        CoreDef::Export(mi, name) => match frame.module_instances@[mi as int] {
            ModuleInstanceDef::Instantiated { module_idx, .. } => match frame.modules@[module_idx as int] {
                ModuleDef::Static(s) => (s, name@),
                _ => (0, name@),
            },
            _ => (0, name@),
        },
        _ => (0, Seq::empty()),
    }
}

/// The lifted export names a function of its static module.
pub open spec fn export_func_resolves(frame: ComponentFrame, modules: Seq<ParsedModule>, lift: CanonLift) -> bool {
    let (s, name) = spec_core_export(frame, lift);
    &&& core_export_resolves(frame, lift)
    &&& s < modules.len()
    &&& spec_find_export(modules[s as int].exports@, name) matches Some(k)
    &&& modules[s as int].exports@[k].1 matches EntityIndex::Function(f)
    &&& f < modules[s as int].func_names@.len()
}

/// The symbol path of the core function behind a lifting: its module's
/// name, then the function's name.
pub open spec fn spec_export_func_path(frame: ComponentFrame, modules: Seq<ParsedModule>, lift: CanonLift) -> Seq<NameComponent> {
    let (s, name) = spec_core_export(frame, lift);
    let m = modules[s as int];
    let k = spec_find_export(m.exports@, name)->Some_0;
    let f = m.exports@[k].1->Function_0;
    seq![NameComponent::Component(m.name@), NameComponent::Leaf(m.func_names@[f as int]@)]
}

/// A found export is one of the exports, and carries the name sought.
proof fn lemma_find_export(exports: Seq<(String, EntityIndex)>, name: Seq<char>)
    ensures
        spec_find_export(exports, name) matches Some(k) ==> 0 <= k < exports.len() && exports[k].0@ == name,
    decreases exports.len(),
{
    if exports.len() > 0 && exports.last().0@ != name {
        lemma_find_export(exports.drop_last(), name);
    }
}

/// Finds the last export named `name`.
fn find_export(exports: &Vec<(String, EntityIndex)>, name: &str) -> (r: Option<usize>)
    ensures
        match spec_find_export(exports@, name@) {
            Some(i) => r matches Some(k) && k as int == i && i < exports@.len(),
            None => r is None,
        },
{
    proof {
        lemma_find_export(exports@, name@);
    }
    let mut i = exports.len();
    assert(exports@.take(i as int) =~= exports@);
    while i > 0
        invariant
            i <= exports@.len(),
            spec_find_export(exports@, name@) == spec_find_export(exports@.take(i as int), name@),
        decreases i,
    {
        assert(exports@.take(i as int).drop_last() =~= exports@.take(i - 1));
        if crate::text::str_eq(exports[i - 1].0.as_str(), name) {
            return Some(i - 1);
        }
        i = i - 1;
    }
    None
}

/// The symbol path of the core wasm function behind a lifting: the name of
/// the static module whose instance exports it, then the name of the
/// function that the module exports under the lifted name.
pub fn core_module_export_func_path<'a>(frame: &ComponentFrame<'a>, modules: &Vec<ParsedModule>, lift: &CanonLift) -> (r: SymbolPath)
    requires
        export_func_resolves(*frame, modules@, *lift),
    ensures
        r@ == spec_export_func_path(*frame, modules@, *lift),
{
    let (s, name) = core_module_export(frame, lift);
    let m = &modules[s as usize];
    let k = match find_export(&m.exports, name) {
        Some(k) => k,
        None => unreached(),
    };
    match m.exports[k].1 {
        EntityIndex::Function(f) => module_item_path(m.name.as_str(), m.func_names[f as usize].as_str()),
        _ => unreached(),
    }
}

/// An import of a core module being instantiated that a lowered component
/// function satisfies: the import's path and the lowering.
pub struct ImportArg {
    pub path: SymbolPath,
    pub lower: CanonLower,
}

/// The imports that the synthetic module `module_name` provides: each of its
/// entities must be a lowered function (`None` otherwise).
pub open spec fn spec_lowered_imports(
    frame: ComponentFrame,
    module_name: Seq<char>,
    entities: Seq<(&str, EntityIndex)>,
) -> Option<Seq<(Seq<NameComponent>, CanonLower)>>
    decreases entities.len(),
{
    if entities.len() == 0 {
        Some(Seq::empty())
    } else {
        match spec_lowered_imports(frame, module_name, entities.drop_last()) {
            Some(acc) => match entities.last().1 {
                EntityIndex::Function(fid) => if fid < frame.funcs.len() && frame.funcs@[fid as int] is Lower {
                    Some(acc.push((
                        seq![NameComponent::Component(module_name), NameComponent::Leaf(entities.last().0@)],
                        frame.funcs@[fid as int]->Lower_0,
                    )))
                } else {
                    None
                },
                _ => None,
            },
            None => None,
        }
    }
}

/// The imports that the arguments of a module instantiation provide, in
/// argument order: arguments flagged in `skip` (the Miden ABI modules, which
/// the module translation resolves itself) provide none; a synthetic module
/// instance provides its lowered functions; an instantiated module instance
/// is refused. `None` stands for arguments that are not module instances of
/// the frame or synthetic modules with entities that are not lowered
/// functions.
pub open spec fn spec_import_args(
    frame: ComponentFrame,
    args: Seq<(&str, u32)>,
    skip: Seq<bool>,
) -> Option<Result<Seq<(Seq<NameComponent>, CanonLower)>, Unsupported>>
    decreases args.len(),
{
    if args.len() == 0 {
        Some(Ok(Seq::empty()))
    } else {
        match spec_import_args(frame, args.drop_last(), skip.drop_last()) {
            Some(Ok(acc)) => {
                let (name, mi) = args.last();
                if skip.last() {
                    Some(Ok(acc))
                } else if mi >= frame.module_instances.len() {
                    None
                } else {
                    match frame.module_instances@[mi as int] {
                        ModuleInstanceDef::Instantiated { .. } => Some(Err(Unsupported::InstantiatedModuleArgument)),
                        ModuleInstanceDef::Synthetic(entities) => match spec_lowered_imports(frame, name@, entities@) {
                            Some(more) => Some(Ok(acc + more)),
                            None => None,
                        },
                    }
                }
            },
            other => other,
        }
    }
}

/// A path of two components: a module and an item in it.
fn module_item_path(module: &str, item: &str) -> (r: SymbolPath)
    ensures
        r@ == seq![NameComponent::Component(module@), NameComponent::Leaf(item@)],
{
    let mut path: Vec<SymbolNameComponent> = Vec::new();
    path.push(SymbolNameComponent::Component(module.to_owned()));
    path.push(SymbolNameComponent::Leaf(item.to_owned()));
    let r = SymbolPath { path };
    assert(r@ =~= seq![NameComponent::Component(module@), NameComponent::Leaf(item@)]);
    r
}

/// The imports of a core module being instantiated with `args` that are
/// satisfied by lowered component functions; `skip` flags the arguments
/// that name Miden ABI modules.
pub fn module_import_args<'a>(
    frame: &ComponentFrame<'a>,
    args: &[(&'a str, u32)],
    skip: &[bool],
) -> (r: Result<Vec<ImportArg>, Unsupported>)
    requires
        skip@.len() == args@.len(),
        spec_import_args(*frame, args@, skip@) is Some,
    ensures
        match spec_import_args(*frame, args@, skip@)->Some_0 {
            Ok(imports) => r matches Ok(v) && v@.len() == imports.len()
                && forall|i: int| 0 <= i < v@.len() ==> (#[trigger] v@[i]).path@ == imports[i].0 && v@[i].lower == imports[i].1,
            Err(e) => r == Err::<Vec<ImportArg>, _>(e),
        },
{
    let mut out: Vec<ImportArg> = Vec::new();
    let n = args.len();
    let mut i: usize = 0;
    proof {
        lemma_import_args_prefix(*frame, args@, skip@, n as int);
    }
    while i < n
        invariant
            n == args@.len(),
            skip@.len() == n,
            i <= n,
            forall|j: int| i <= j <= n ==> spec_import_args(*frame, args@.take(j), skip@.take(j)) is Some,
            spec_import_args(*frame, args@.take(i as int), skip@.take(i as int)) matches Some(Ok(acc))
                && out@.len() == acc.len()
                && forall|k: int| 0 <= k < out@.len() ==> (#[trigger] out@[k]).path@ == acc[k].0 && out@[k].lower == acc[k].1,
        decreases n - i,
    {
        assert(args@.take(i + 1).drop_last() =~= args@.take(i as int));
        assert(skip@.take(i + 1).drop_last() =~= skip@.take(i as int));
        let (name, mi) = args[i];
        let ghost acc = spec_import_args(*frame, args@.take(i as int), skip@.take(i as int))->Some_0->Ok_0;
        if !skip[i] {
            match frame.module_instances[mi as usize] {
                ModuleInstanceDef::Instantiated { .. } => {
                    proof {
                        lemma_import_args_err_stays(*frame, args@, skip@, i as int + 1, n as int);
                        assert(args@.take(n as int) =~= args@);
                        assert(skip@.take(n as int) =~= skip@);
                    }
                    return Err(Unsupported::InstantiatedModuleArgument);
                },
                ModuleInstanceDef::Synthetic(entities) => {
                    let m = entities.len();
                    let mut j: usize = 0;
                    let ghost base = out@;
                    while j < m
                        invariant
                            m == entities@.len(),
                            j <= m,
                            spec_lowered_imports(*frame, name@, entities@) is Some,
                            spec_lowered_imports(*frame, name@, entities@.take(j as int)) matches Some(more)
                                && out@.len() == base.len() + more.len()
                                && out@.take(base.len() as int) == base
                                && forall|k: int| 0 <= k < more.len() ==> (#[trigger] out@[base.len() + k]).path@ == more[k].0 && out@[base.len() + k].lower == more[k].1,
                        decreases m - j,
                    {
                        proof {
                            lemma_lowered_prefix(*frame, name@, entities@, j as int + 1);
                        }
                        assert(entities@.take(j + 1).drop_last() =~= entities@.take(j as int));
                        let (func_name, entity) = entities[j];
                        let fid = match entity {
                            EntityIndex::Function(fid) => fid,
                            _ => unreached(),
                        };
                        let lower = *frame.funcs[fid as usize].unwrap_canon_lower();
                        out.push(ImportArg { path: module_item_path(name, func_name), lower });
                        j = j + 1;
                    }
                    assert(entities@.take(m as int) =~= entities@);
                    let ghost more = spec_lowered_imports(*frame, name@, entities@)->Some_0;
                    assert forall|k: int| 0 <= k < out@.len() implies (#[trigger] out@[k]).path@ == (acc + more)[k].0 && out@[k].lower == (acc + more)[k].1 by {
                        if k < base.len() {
                            assert(out@[k] == out@.take(base.len() as int)[k]);
                        } else {
                            assert(out@[base.len() + (k - base.len())] == out@[k]);
                        }
                    }
                },
            }
        }
        i = i + 1;
        assert(spec_import_args(*frame, args@.take(i as int), skip@.take(i as int)) is Some);
    }
    assert(args@.take(n as int) =~= args@);
    assert(skip@.take(n as int) =~= skip@);
    Ok(out)
}

/// Every prefix of a lowering that succeeds succeeds.
proof fn lemma_lowered_prefix(frame: ComponentFrame, module_name: Seq<char>, entities: Seq<(&str, EntityIndex)>, j: int)
    requires
        0 <= j <= entities.len(),
        spec_lowered_imports(frame, module_name, entities) is Some,
    ensures
        spec_lowered_imports(frame, module_name, entities.take(j)) is Some,
    decreases entities.len() - j,
{
    if j < entities.len() {
        lemma_lowered_prefix(frame, module_name, entities, j + 1);
        assert(entities.take(j + 1).drop_last() =~= entities.take(j));
    } else {
        assert(entities.take(j) =~= entities);
    }
}

/// Every prefix of a defined argument list is defined.
proof fn lemma_import_args_prefix(frame: ComponentFrame, args: Seq<(&str, u32)>, skip: Seq<bool>, n: int)
    requires
        n == args.len(),
        skip.len() == n,
        spec_import_args(frame, args, skip) is Some,
    ensures
        forall|j: int| 0 <= j <= n ==> spec_import_args(frame, args.take(j), skip.take(j)) is Some,
{
    assert forall|j: int| 0 <= j <= n implies spec_import_args(frame, args.take(j), skip.take(j)) is Some by {
        lemma_import_args_prefix_one(frame, args, skip, j);
    }
}

proof fn lemma_import_args_prefix_one(frame: ComponentFrame, args: Seq<(&str, u32)>, skip: Seq<bool>, j: int)
    requires
        skip.len() == args.len(),
        0 <= j <= args.len(),
        spec_import_args(frame, args, skip) is Some,
    ensures
        spec_import_args(frame, args.take(j), skip.take(j)) is Some,
    decreases args.len() - j,
{
    if j < args.len() {
        lemma_import_args_prefix_one(frame, args, skip, j + 1);
        assert(args.take(j + 1).drop_last() =~= args.take(j));
        assert(skip.take(j + 1).drop_last() =~= skip.take(j));
    } else {
        assert(args.take(j) =~= args);
        assert(skip.take(j) =~= skip);
    }
}

/// Once an argument prefix is refused, every longer prefix is refused the
/// same way.
proof fn lemma_import_args_err_stays(frame: ComponentFrame, args: Seq<(&str, u32)>, skip: Seq<bool>, i: int, n: int)
    requires
        n == args.len(),
        skip.len() == n,
        0 <= i <= n,
        spec_import_args(frame, args.take(i), skip.take(i)) == Some(Err::<Seq<(Seq<NameComponent>, CanonLower)>, _>(Unsupported::InstantiatedModuleArgument)),
    ensures
        spec_import_args(frame, args.take(n), skip.take(n)) == Some(Err::<Seq<(Seq<NameComponent>, CanonLower)>, _>(Unsupported::InstantiatedModuleArgument)),
    decreases n - i,
{
    if i < n {
        assert(args.take(i + 1).drop_last() =~= args.take(i));
        assert(skip.take(i + 1).drop_last() =~= skip.take(i));
        lemma_import_args_err_stays(frame, args, skip, i + 1, n);
    }
}

/// How many of the sections are present.
pub open spec fn count_present(sections: Seq<Option<Vec<u8>>>) -> nat
    decreases sections.len(),
{
    if sections.len() == 0 {
        0
    } else {
        count_present(sections.drop_last()) + if sections.last() is Some { 1nat } else { 0nat }
    }
}

/// The account component metadata of a translated component: the metadata
/// section of the one core module that carries one (`sections` holds the
/// section of each static module, in module order).
pub fn account_component_metadata(sections: &Vec<Option<Vec<u8>>>) -> (r: Vec<u8>)
    requires
        count_present(sections@) == 1,
    ensures
        exists|i: int| #![trigger sections@[i]] 0 <= i < sections@.len() && (sections@[i] matches Some(b) && r@ == b@),
{
    let mut i: usize = 0;
    while i < sections.len()
        invariant
            i <= sections@.len(),
            count_present(sections@) == 1,
            count_present(sections@.take(i as int)) == 0,
        decreases sections@.len() - i,
    {
        assert(sections@.take(i + 1).drop_last() =~= sections@.take(i as int));
        match &sections[i] {
            Some(bytes) => {
                return bytes.clone();
            },
            None => {},
        }
        i = i + 1;
    }
    assert(sections@.take(sections@.len() as int) =~= sections@);
    unreached()
}

/// The name under which the root component exports its first component
/// instance; the component's identity is read from it.
pub fn root_component_instance_name<'a>(exports: &[(&'a str, ComponentItem)]) -> (r: &'a str)
    requires
        exists|i: int| 0 <= i < exports@.len() && exports@[i].1 is ComponentInstance,
    ensures
        exists|i: int|
            0 <= i < exports@.len() && exports@[i].1 is ComponentInstance && r == exports@[i].0
                && forall|j: int| 0 <= j < i ==> !(exports@[j].1 is ComponentInstance),
{
    let mut i: usize = 0;
    while i < exports.len()
        invariant
            i <= exports@.len(),
            exists|k: int| i <= k < exports@.len() && exports@[k].1 is ComponentInstance,
            forall|j: int| 0 <= j < i ==> !(exports@[j].1 is ComponentInstance),
        decreases exports@.len() - i,
    {
        if let ComponentItem::ComponentInstance(_) = exports[i].1 {
            return exports[i].0;
        }
        i = i + 1;
    }
    unreached()
}

/// Whether a Wasm binary is a core module rather than a component: its
/// version field (bytes 4 to 8) is that of core modules.
pub fn is_core_module(wasm: &[u8]) -> (r: bool)
    requires
        wasm@.len() >= 8,
    ensures
        r == (wasm@.subrange(4, 8) == seq![1u8, 0u8, 0u8, 0u8]),
{
    let r = wasm[4] == 1 && wasm[5] == 0 && wasm[6] == 0 && wasm[7] == 0;
    assert(r == (wasm@.subrange(4, 8) =~= seq![1u8, 0u8, 0u8, 0u8]));
    r
}

/// Exporting a component lists each exported function once, in export
/// order: the lifts of two export lists one after the other are the lifts
/// of the first followed by those of the second; a function export gives
/// its name with the lifting of its function in the nested frame, and any
/// other export gives nothing.
pub proof fn lemma_export_lifts_compose<'a>(
    e1: Seq<(&'a str, ComponentItem)>,
    e2: Seq<(&'a str, ComponentItem)>,
    nested: ComponentFrame<'a>,
    name: &'a str,
    item: ComponentItem,
)
    ensures
        spec_export_lifts(e1 + e2, nested) == spec_export_lifts(e1, nested) + spec_export_lifts(e2, nested),
        spec_export_lifts(seq![(name, item)], nested) == match item {
            ComponentItem::Func(f) => seq![ExportLift { name, lift: nested.component_funcs@[f as int]->Lifted_0 }],
            _ => Seq::<ExportLift<'a>>::empty(),
        },
    decreases e2.len(),
{
    let single = seq![(name, item)];
    assert(single.drop_last() =~= Seq::<(&'a str, ComponentItem)>::empty());
    assert(single.last() == (name, item));
    let none = spec_export_lifts(Seq::<(&'a str, ComponentItem)>::empty(), nested);
    assert(none == Seq::<ExportLift<'a>>::empty());
    if let ComponentItem::Func(f) = item {
        let x = ExportLift { name, lift: nested.component_funcs@[f as int]->Lifted_0 };
        assert(none.push(x) =~= seq![x]);
    }
    if e2.len() == 0 {
        assert(e1 + e2 =~= e1);
        assert(spec_export_lifts(e1, nested) + spec_export_lifts(e2, nested) =~= spec_export_lifts(e1, nested));
    } else {
        lemma_export_lifts_compose(e1, e2.drop_last(), nested, name, item);
        assert((e1 + e2).drop_last() =~= e1 + e2.drop_last());
        assert((e1 + e2).last() == e2.last());
        let a = spec_export_lifts(e1, nested);
        let b = spec_export_lifts(e2.drop_last(), nested);
        match e2.last().1 {
            ComponentItem::Func(f) => {
                let x = ExportLift { name: e2.last().0, lift: nested.component_funcs@[f as int]->Lifted_0 };
                assert((a + b).push(x) =~= a + b.push(x));
            },
            _ => {},
        }
    }
}

/// The imports that the arguments of a module instantiation provide are
/// collected across all of them: the imports of two argument lists one
/// after the other are the imports of the first followed by those of the
/// second, when both are accepted.
pub proof fn lemma_import_args_concat(
    frame: ComponentFrame,
    a1: Seq<(&str, u32)>,
    s1: Seq<bool>,
    a2: Seq<(&str, u32)>,
    s2: Seq<bool>,
    x: Seq<(Seq<NameComponent>, CanonLower)>,
    y: Seq<(Seq<NameComponent>, CanonLower)>,
)
    requires
        a1.len() == s1.len(),
        a2.len() == s2.len(),
        spec_import_args(frame, a1, s1) == Some(Ok::<_, Unsupported>(x)),
        spec_import_args(frame, a2, s2) == Some(Ok::<_, Unsupported>(y)),
    ensures
        spec_import_args(frame, a1 + a2, s1 + s2) == Some(Ok::<_, Unsupported>(x + y)),
    decreases a2.len(),
{
    if a2.len() == 0 {
        assert(a1 + a2 =~= a1);
        assert(s1 + s2 =~= s1);
        assert(y =~= Seq::<(Seq<NameComponent>, CanonLower)>::empty());
        assert(x + y =~= x);
    } else {
        assert((a1 + a2).drop_last() =~= a1 + a2.drop_last());
        assert((s1 + s2).drop_last() =~= s1 + s2.drop_last());
        assert((a1 + a2).last() == a2.last());
        assert((s1 + s2).last() == s2.last());
        let y0 = spec_import_args(frame, a2.drop_last(), s2.drop_last())->Some_0->Ok_0;
        lemma_import_args_concat(frame, a1, s1, a2.drop_last(), s2.drop_last(), x, y0);
        if !s2.last() {
            let (name, mi) = a2.last();
            if let ModuleInstanceDef::Synthetic(entities) = frame.module_instances@[mi as int] {
                let more = spec_lowered_imports(frame, name@, entities@)->Some_0;
                assert(x + (y0 + more) =~= (x + y0) + more);
            }
        }
    }
}

/// A synthetic module instance provides one import per entity, in entity
/// order: the path of module name and entity name, with the lowering that
/// the entity's function is.
pub proof fn lemma_lowered_imports_each(
    frame: ComponentFrame,
    module_name: Seq<char>,
    entities: Seq<(&str, EntityIndex)>,
)
    requires
        spec_lowered_imports(frame, module_name, entities) is Some,
    ensures
        ({
            let more = spec_lowered_imports(frame, module_name, entities)->Some_0;
            &&& more.len() == entities.len()
            &&& forall|k: int| 0 <= k < entities.len() ==> ((#[trigger] entities[k]).1 matches EntityIndex::Function(fid)
                && more[k] == (seq![NameComponent::Component(module_name), NameComponent::Leaf(entities[k].0@)],
                    frame.funcs@[fid as int]->Lower_0))
        }),
    decreases entities.len(),
{
    if entities.len() > 0 {
        lemma_lowered_imports_each(frame, module_name, entities.drop_last());
        let more = spec_lowered_imports(frame, module_name, entities)->Some_0;
        let prev = spec_lowered_imports(frame, module_name, entities.drop_last())->Some_0;
        assert forall|k: int| 0 <= k < entities.len() implies ((#[trigger] entities[k]).1 matches EntityIndex::Function(fid)
            && more[k] == (seq![NameComponent::Component(module_name), NameComponent::Leaf(entities[k].0@)],
                frame.funcs@[fid as int]->Lower_0)) by {
            if k < entities.len() - 1 {
                assert(entities[k] == entities.drop_last()[k]);
                assert(more[k] == prev[k]);
            }
        }
    }
}

} // verus!
