//! WinRT type metadata, as `.winmd` files describe it: runtime classes,
//! interfaces, delegates, enums and structs, with their members.

use vstd::prelude::*;

use crate::text::{
    first_index, last_index, lemma_first_index, lemma_first_index_push, lemma_last_index_push,
    str_eq,
};

verus! {

/// A WinRT type kind.
#[derive(Debug, Clone, Copy, PartialEq, Eq, Structural)]
pub enum WinRtTypeKind {
    /// Runtime class (activatable).
    RuntimeClass,
    /// Interface (IFoo).
    Interface,
    /// Delegate (callback type).
    Delegate,
    /// Enum.
    Enum,
    /// Struct (value type).
    Struct,
    /// Attribute.
    Attribute,
}

/// A WinRT method definition.
#[derive(Debug, Clone)]
pub struct WinRtMethodDef {
    /// Method name.
    pub name: String,
    /// Return type name.
    pub return_type: String,
    /// Parameter names and types.
    pub parameters: Vec<(String, String)>,
    /// Whether this is a static method.
    pub is_static: bool,
    /// Whether this method is overloaded.
    pub is_overload: bool,
    /// Default overload name (if overloaded).
    pub default_overload: Option<String>,
}

/// A WinRT property definition.
#[derive(Debug, Clone)]
pub struct WinRtPropertyDef {
    /// Property name.
    pub name: String,
    /// Property type name.
    pub property_type: String,
    /// Whether the property has a getter.
    pub has_getter: bool,
    /// Whether the property has a setter.
    pub has_setter: bool,
    /// Whether this is a static property.
    pub is_static: bool,
}

/// A WinRT event definition.
#[derive(Debug, Clone)]
pub struct WinRtEventDef {
    /// Event name.
    pub name: String,
    /// Delegate type name.
    pub delegate_type: String,
}

/// A WinRT type definition.
#[derive(Debug, Clone)]
pub struct WinRtTypeDef {
    /// Fully qualified name (e.g. "Windows.Foundation.Uri").
    pub full_name: String,
    /// Namespace (e.g. "Windows.Foundation").
    pub namespace: String,
    /// Short name (e.g. "Uri").
    pub name: String,
    /// Type kind.
    pub kind: WinRtTypeKind,
    /// Base type name (if any).
    pub base_type: Option<String>,
    /// Interfaces implemented.
    pub interfaces: Vec<String>,
    /// Methods.
    pub methods: Vec<WinRtMethodDef>,
    /// Properties.
    pub properties: Vec<WinRtPropertyDef>,
    /// Events.
    pub events: Vec<WinRtEventDef>,
    /// Whether this class is activatable (has a default constructor).
    pub is_activatable: bool,
    /// Whether this class is sealed.
    pub is_sealed: bool,
    /// Whether this class is static (only static members).
    pub is_static: bool,
    /// Generic parameters.
    pub generic_params: Vec<String>,
}

// ---------------------------------------------------------------------------
// What the contracts see of the definitions
// ---------------------------------------------------------------------------

/// A method definition, with its strings as character sequences.
#[verifier::ext_equal]
pub struct MethodView {
    pub name: Seq<char>,
    pub return_type: Seq<char>,
    pub parameters: Seq<(Seq<char>, Seq<char>)>,
    pub is_static: bool,
    pub is_overload: bool,
    pub default_overload: Option<Seq<char>>,
}

/// A property definition, with its strings as character sequences.
#[verifier::ext_equal]
pub struct PropertyView {
    pub name: Seq<char>,
    pub property_type: Seq<char>,
    pub has_getter: bool,
    pub has_setter: bool,
    pub is_static: bool,
}

/// An event definition, with its strings as character sequences.
#[verifier::ext_equal]
pub struct EventView {
    pub name: Seq<char>,
    pub delegate_type: Seq<char>,
}

/// A type definition, with its strings as character sequences.
#[verifier::ext_equal]
pub struct TypeDefView {
    pub full_name: Seq<char>,
    pub namespace: Seq<char>,
    pub name: Seq<char>,
    pub kind: WinRtTypeKind,
    pub base_type: Option<Seq<char>>,
    pub interfaces: Seq<Seq<char>>,
    pub methods: Seq<MethodView>,
    pub properties: Seq<PropertyView>,
    pub events: Seq<EventView>,
    pub is_activatable: bool,
    pub is_sealed: bool,
    pub is_static: bool,
    pub generic_params: Seq<Seq<char>>,
}

/// The characters of each string of `v`.
pub open spec fn strings_view(v: Seq<String>) -> Seq<Seq<char>> {
    v.map_values(|s: String| s@)
}

/// The characters of an optional string.
pub open spec fn opt_string_view(o: Option<String>) -> Option<Seq<char>> {
    match o {
        Some(s) => Some(s@),
        None => None,
    }
}

impl View for WinRtMethodDef {
    type V = MethodView;

    open spec fn view(&self) -> MethodView {
        MethodView {
            name: self.name@,
            return_type: self.return_type@,
            parameters: self.parameters@.map_values(|p: (String, String)| (p.0@, p.1@)),
            is_static: self.is_static,
            is_overload: self.is_overload,
            default_overload: opt_string_view(self.default_overload),
        }
    }
}

impl View for WinRtPropertyDef {
    type V = PropertyView;

    open spec fn view(&self) -> PropertyView {
        PropertyView {
            name: self.name@,
            property_type: self.property_type@,
            has_getter: self.has_getter,
            has_setter: self.has_setter,
            is_static: self.is_static,
        }
    }
}

impl View for WinRtEventDef {
    type V = EventView;

    open spec fn view(&self) -> EventView {
        EventView { name: self.name@, delegate_type: self.delegate_type@ }
    }
}

impl View for WinRtTypeDef {
    type V = TypeDefView;

    open spec fn view(&self) -> TypeDefView {
        TypeDefView {
            full_name: self.full_name@,
            namespace: self.namespace@,
            name: self.name@,
            kind: self.kind,
            base_type: opt_string_view(self.base_type),
            interfaces: strings_view(self.interfaces@),
            methods: self.methods@.map_values(|m: WinRtMethodDef| m@),
            properties: self.properties@.map_values(|p: WinRtPropertyDef| p@),
            events: self.events@.map_values(|e: WinRtEventDef| e@),
            is_activatable: self.is_activatable,
            is_sealed: self.is_sealed,
            is_static: self.is_static,
            generic_params: strings_view(self.generic_params@),
        }
    }
}

// ---------------------------------------------------------------------------
// Copies with known contents
// ---------------------------------------------------------------------------

fn copy_string(s: &String) -> (r: String)
    ensures
        r@ == s@,
{
    s.clone()
}

fn copy_opt_string(o: &Option<String>) -> (r: Option<String>)
    ensures
        opt_string_view(r) == opt_string_view(*o),
{
    match o {
        Some(s) => Some(copy_string(s)),
        None => None,
    }
}

fn copy_strings(v: &Vec<String>) -> (r: Vec<String>)
    ensures
        strings_view(r@) == strings_view(v@),
{
    let mut r: Vec<String> = Vec::new();
    let mut i: usize = 0;
    while i < v.len()
        invariant
            i <= v@.len(),
            r@.len() == i,
            forall|k: int| 0 <= k < i ==> (#[trigger] r@[k])@ == v@[k]@,
        decreases v@.len() - i,
    {
        r.push(copy_string(&v[i]));
        i = i + 1;
    }
    assert(strings_view(r@) =~= strings_view(v@));
    r
}

impl WinRtMethodDef {
    /// A copy of the definition with the same contents.
    pub fn copy(&self) -> (r: Self)
        ensures
            r@ == self@,
    {
        let mut params: Vec<(String, String)> = Vec::new();
        let mut i: usize = 0;
        while i < self.parameters.len()
            invariant
                i <= self.parameters@.len(),
                params@.len() == i,
                forall|k: int|
                    0 <= k < i ==> (#[trigger] params@[k]).0@ == self.parameters@[k].0@
                        && params@[k].1@ == self.parameters@[k].1@,
            decreases self.parameters@.len() - i,
        {
            let p = (copy_string(&self.parameters[i].0), copy_string(&self.parameters[i].1));
            params.push(p);
            i = i + 1;
        }
        assert(params@.map_values(|p: (String, String)| (p.0@, p.1@)) =~= self.parameters@.map_values(
            |p: (String, String)| (p.0@, p.1@),
        ));
        WinRtMethodDef {
            name: copy_string(&self.name),
            return_type: copy_string(&self.return_type),
            parameters: params,
            is_static: self.is_static,
            is_overload: self.is_overload,
            default_overload: copy_opt_string(&self.default_overload),
        }
    }
}

impl WinRtPropertyDef {
    /// A copy of the definition with the same contents.
    pub fn copy(&self) -> (r: Self)
        ensures
            r@ == self@,
    {
        WinRtPropertyDef {
            name: copy_string(&self.name),
            property_type: copy_string(&self.property_type),
            has_getter: self.has_getter,
            has_setter: self.has_setter,
            is_static: self.is_static,
        }
    }
}

impl WinRtEventDef {
    /// A copy of the definition with the same contents.
    pub fn copy(&self) -> (r: Self)
        ensures
            r@ == self@,
    {
        WinRtEventDef {
            name: copy_string(&self.name),
            delegate_type: copy_string(&self.delegate_type),
        }
    }
}

impl WinRtTypeDef {
    /// A copy of the definition with the same contents.
    pub fn copy(&self) -> (r: Self)
        ensures
            r@ == self@,
    {
        let mut methods: Vec<WinRtMethodDef> = Vec::new();
        let mut i: usize = 0;
        while i < self.methods.len()
            invariant
                i <= self.methods@.len(),
                methods@.len() == i,
                forall|k: int| 0 <= k < i ==> (#[trigger] methods@[k])@ == self.methods@[k]@,
            decreases self.methods@.len() - i,
        {
            methods.push(self.methods[i].copy());
            i = i + 1;
        }
        assert(methods@.map_values(|m: WinRtMethodDef| m@) =~= self.methods@.map_values(|m: WinRtMethodDef| m@));
        let mut properties: Vec<WinRtPropertyDef> = Vec::new();
        let mut i: usize = 0;
        while i < self.properties.len()
            invariant
                i <= self.properties@.len(),
                properties@.len() == i,
                forall|k: int| 0 <= k < i ==> (#[trigger] properties@[k])@ == self.properties@[k]@,
            decreases self.properties@.len() - i,
        {
            properties.push(self.properties[i].copy());
            i = i + 1;
        }
        assert(properties@.map_values(|p: WinRtPropertyDef| p@) =~= self.properties@.map_values(|p: WinRtPropertyDef| p@));
        let mut events: Vec<WinRtEventDef> = Vec::new();
        let mut i: usize = 0;
        while i < self.events.len()
            invariant
                i <= self.events@.len(),
                events@.len() == i,
                forall|k: int| 0 <= k < i ==> (#[trigger] events@[k])@ == self.events@[k]@,
            decreases self.events@.len() - i,
        {
            events.push(self.events[i].copy());
            i = i + 1;
        }
        assert(events@.map_values(|e: WinRtEventDef| e@) =~= self.events@.map_values(|e: WinRtEventDef| e@));
        WinRtTypeDef {
            full_name: copy_string(&self.full_name),
            namespace: copy_string(&self.namespace),
            name: copy_string(&self.name),
            kind: self.kind,
            base_type: copy_opt_string(&self.base_type),
            interfaces: copy_strings(&self.interfaces),
            methods,
            properties,
            events,
            is_activatable: self.is_activatable,
            is_sealed: self.is_sealed,
            is_static: self.is_static,
            generic_params: copy_strings(&self.generic_params),
        }
    }
}

// ---------------------------------------------------------------------------
// The metadata catalogue
// ---------------------------------------------------------------------------

/// Parsed WinRT metadata.
#[derive(Debug, Clone)]
pub struct WinRtMetadata {
    /// All type definitions, in the order they were added.
    pub types: Vec<WinRtTypeDef>,
    /// Position in `types` of each fully qualified name; one entry per name.
    pub type_index: Vec<(String, usize)>,
    /// Namespaces found, each once, in order of first appearance.
    pub namespaces: Vec<String>,
}

/// The fully qualified names of `types`, in order.
pub open spec fn full_names(types: Seq<WinRtTypeDef>) -> Seq<Seq<char>> {
    types.map_values(|t: WinRtTypeDef| t.full_name@)
}

/// The namespaces of `types`, each once, in order of first appearance.
pub open spec fn namespaces_of(types: Seq<WinRtTypeDef>) -> Seq<Seq<char>>
    decreases types.len(),
{
    if types.len() == 0 {
        Seq::empty()
    } else {
        let prev = namespaces_of(types.drop_last());
        let ns = types.last().namespace@;
        if prev.contains(ns) {
            prev
        } else {
            prev.push(ns)
        }
    }
}

/// The names recorded in an index.
pub open spec fn index_names(idx: Seq<(Seq<char>, usize)>) -> Seq<Seq<char>> {
    idx.map_values(|p: (Seq<char>, usize)| p.0)
}

/// The position an index records for `name`.
pub open spec fn index_lookup(idx: Seq<(Seq<char>, usize)>, name: Seq<char>) -> Option<int> {
    match first_index(index_names(idx), name) {
        Some(j) => Some(idx[j].1 as int),
        None => None,
    }
}

/// The index after recording position `i` for `name`: the entry for the
/// name is updated in place, or a new entry is appended.
pub open spec fn index_insert(idx: Seq<(Seq<char>, usize)>, name: Seq<char>, i: usize) -> Seq<
    (Seq<char>, usize),
> {
    match first_index(index_names(idx), name) {
        Some(j) => idx.update(j, (name, i)),
        None => idx.push((name, i)),
    }
}

/// The definitions of `types` in namespace `ns`, in order.
pub open spec fn in_namespace(types: Seq<WinRtTypeDef>, ns: Seq<char>) -> Seq<WinRtTypeDef>
    decreases types.len(),
{
    if types.len() == 0 {
        Seq::empty()
    } else {
        let prev = in_namespace(types.drop_last(), ns);
        if types.last().namespace@ == ns {
            prev.push(types.last())
        } else {
            prev
        }
    }
}

/// The definitions of `types` of kind `kind`, in order.
pub open spec fn of_kind(types: Seq<WinRtTypeDef>, kind: WinRtTypeKind) -> Seq<WinRtTypeDef>
    decreases types.len(),
{
    if types.len() == 0 {
        Seq::empty()
    } else {
        let prev = of_kind(types.drop_last(), kind);
        if types.last().kind == kind {
            prev.push(types.last())
        } else {
            prev
        }
    }
}

/// The referents of a sequence of references.
pub open spec fn derefs(v: Seq<&WinRtTypeDef>) -> Seq<WinRtTypeDef> {
    v.map_values(|t: &WinRtTypeDef| *t)
}

impl WinRtMetadata {
    /// The index, with names as character sequences.
    pub open spec fn index_view(&self) -> Seq<(Seq<char>, usize)> {
        self.type_index@.map_values(|p: (String, usize)| (p.0@, p.1))
    }

    /// The namespaces, as character sequences.
    pub open spec fn namespaces_view(&self) -> Seq<Seq<char>> {
        strings_view(self.namespaces@)
    }

    /// The position the index records for `name`.
    pub open spec fn lookup(&self, name: Seq<char>) -> Option<int> {
        index_lookup(self.index_view(), name)
    }

    /// The index leads each name to the last definition added under it, and
    /// the namespaces are those of the definitions, each once, in order of
    /// first appearance. Metadata built with `new` and `add_type` has this
    /// property.
    pub open spec fn wf(&self) -> bool {
        &&& forall|name: Seq<char>| #[trigger]
            self.lookup(name) == last_index(full_names(self.types@), name)
        &&& self.namespaces_view() == namespaces_of(self.types@)
    }

    /// Empty metadata.
    pub fn new() -> (r: Self)
        ensures
            r.types@ == Seq::<WinRtTypeDef>::empty(),
            r.index_view() == Seq::<(Seq<char>, usize)>::empty(),
            r.namespaces_view() == Seq::<Seq<char>>::empty(),
            r.wf(),
            index_consistent(r),
    {
        let r = WinRtMetadata { types: Vec::new(), type_index: Vec::new(), namespaces: Vec::new() };
        assert(r.index_view() =~= Seq::<(Seq<char>, usize)>::empty());
        assert(r.namespaces_view() =~= Seq::<Seq<char>>::empty());
        assert forall|name: Seq<char>| #[trigger]
            r.lookup(name) == last_index(full_names(r.types@), name) by {
            assert(index_names(r.index_view()) =~= Seq::<Seq<char>>::empty());
        }
        r
    }

    /// Position in the index of the entry for `name`.
    fn index_position(&self, name: &str) -> (r: Option<usize>)
        ensures
            r matches Some(j) ==> first_index(index_names(self.index_view()), name@) == Some(
                j as int,
            ) && j < self.type_index@.len(),
            r is None ==> first_index(index_names(self.index_view()), name@) is None,
    {
        let ghost names = index_names(self.index_view());
        let mut j: usize = 0;
        while j < self.type_index.len()
            invariant
                j <= self.type_index@.len(),
                names == index_names(self.index_view()),
                names.len() == self.type_index@.len(),
                crate::text::first_from(names, name@, 0) == crate::text::first_from(
                    names,
                    name@,
                    j as int,
                ),
            decreases self.type_index@.len() - j,
        {
            assert(names[j as int] == self.type_index@[j as int].0@);
            if str_eq(self.type_index[j].0.as_str(), name) {
                return Some(j);
            }
            j = j + 1;
        }
        None
    }

    /// Whether `ns` is among the namespaces.
    fn has_namespace(&self, ns: &str) -> (r: bool)
        ensures
            r == self.namespaces_view().contains(ns@),
    {
        let mut k: usize = 0;
        while k < self.namespaces.len()
            invariant
                k <= self.namespaces@.len(),
                forall|m: int| 0 <= m < k ==> self.namespaces@[m]@ != ns@,
            decreases self.namespaces@.len() - k,
        {
            if str_eq(self.namespaces[k].as_str(), ns) {
                assert(self.namespaces_view()[k as int] == ns@);
                return true;
            }
            k = k + 1;
        }
        false
    }

    /// Adds a type definition: it is appended to the definitions, the index
    /// leads its name to it, and its namespace is recorded when new.
    pub fn add_type(&mut self, typedef: WinRtTypeDef)
        ensures
            final(self).types@ == old(self).types@.push(typedef),
            final(self).index_view() == index_insert(
                old(self).index_view(),
                typedef.full_name@,
                old(self).types@.len() as usize,
            ),
            final(self).namespaces_view() == (if old(self).namespaces_view().contains(
                typedef.namespace@,
            ) {
                old(self).namespaces_view()
            } else {
                old(self).namespaces_view().push(typedef.namespace@)
            }),
            old(self).wf() ==> final(self).wf(),
            index_consistent(*old(self)) ==> index_consistent(*final(self)),
    {
        let ghost old_md = *self;
        let idx = self.types.len();
        match self.index_position(typedef.full_name.as_str()) {
            Some(j) => {
                let name = typedef.full_name.clone();
                self.type_index.set(j, (name, idx));
                assert(self.index_view() =~= old_md.index_view().update(
                    j as int,
                    (typedef.full_name@, idx),
                ));
            },
            None => {
                let name = typedef.full_name.clone();
                self.type_index.push((name, idx));
                assert(self.index_view() =~= old_md.index_view().push((typedef.full_name@, idx)));
            },
        }
        if !self.has_namespace(typedef.namespace.as_str()) {
            let ns = typedef.namespace.clone();
            self.namespaces.push(ns);
            assert(self.namespaces_view() =~= old_md.namespaces_view().push(typedef.namespace@));
        } else {
            assert(self.namespaces_view() =~= old_md.namespaces_view());
        }
        self.types.push(typedef);
        proof {
            // A vector's length fits in `usize`, so there was room for one more.
            assert(self.types@.len() == self.types.len());
            if old_md.wf() {
                lemma_add_type_keeps_wf(old_md, *self, typedef);
            }
            if index_consistent(old_md) {
                lemma_add_type_keeps_index_consistent(old_md, *self, typedef);
            }
        }
    }

    /// The definition the index gives for `full_name`.
    pub fn get_type(&self, full_name: &str) -> (r: Option<&WinRtTypeDef>)
        requires
            self.lookup(full_name@) matches Some(i) ==> i < self.types@.len(),
        ensures
            match self.lookup(full_name@) {
                Some(i) => r matches Some(t) && *t == self.types@[i],
                None => r is None,
            },
    {
        match self.index_position(full_name) {
            Some(j) => Some(&self.types[self.type_index[j].1]),
            None => None,
        }
    }

    /// The definitions in namespace `namespace`, in order.
    pub fn types_in_namespace(&self, namespace: &str) -> (r: Vec<&WinRtTypeDef>)
        ensures
            derefs(r@) == in_namespace(self.types@, namespace@),
    {
        let mut r: Vec<&WinRtTypeDef> = Vec::new();
        let mut i: usize = 0;
        while i < self.types.len()
            invariant
                i <= self.types@.len(),
                derefs(r@) == in_namespace(self.types@.take(i as int), namespace@),
            decreases self.types@.len() - i,
        {
            let t = &self.types[i];
            assert(self.types@.take(i + 1).drop_last() =~= self.types@.take(i as int));
            if str_eq(t.namespace.as_str(), namespace) {
                r.push(t);
            }
            assert(derefs(r@) =~= in_namespace(self.types@.take(i + 1), namespace@));
            i = i + 1;
        }
        assert(self.types@.take(self.types@.len() as int) =~= self.types@);
        r
    }

    /// The definitions of kind `kind`, in order.
    fn types_of_kind(&self, kind: WinRtTypeKind) -> (r: Vec<&WinRtTypeDef>)
        ensures
            derefs(r@) == of_kind(self.types@, kind),
    {
        let mut r: Vec<&WinRtTypeDef> = Vec::new();
        let mut i: usize = 0;
        while i < self.types.len()
            invariant
                i <= self.types@.len(),
                derefs(r@) == of_kind(self.types@.take(i as int), kind),
            decreases self.types@.len() - i,
        {
            let t = &self.types[i];
            assert(self.types@.take(i + 1).drop_last() =~= self.types@.take(i as int));
            if t.kind == kind {
                r.push(t);
            }
            assert(derefs(r@) =~= of_kind(self.types@.take(i + 1), kind));
            i = i + 1;
        }
        assert(self.types@.take(self.types@.len() as int) =~= self.types@);
        r
    }

    /// The runtime classes, in order.
    pub fn runtime_classes(&self) -> (r: Vec<&WinRtTypeDef>)
        ensures
            derefs(r@) == of_kind(self.types@, WinRtTypeKind::RuntimeClass),
    {
        self.types_of_kind(WinRtTypeKind::RuntimeClass)
    }

    /// The interfaces, in order.
    pub fn interfaces(&self) -> (r: Vec<&WinRtTypeDef>)
        ensures
            derefs(r@) == of_kind(self.types@, WinRtTypeKind::Interface),
    {
        self.types_of_kind(WinRtTypeKind::Interface)
    }
}

/// The index and namespaces describe the definitions: every entry of the
/// index names a definition under that name, every definition's name is
/// in the index, no name is in it twice, and the namespaces are those of
/// the definitions, each once.
pub open spec fn index_consistent(md: WinRtMetadata) -> bool {
    let idx = md.index_view();
    let ns = md.namespaces_view();
    &&& forall|j: int|
        0 <= j < idx.len() ==> (#[trigger] idx[j]).1 < md.types@.len() && md.types@[idx[j].1 as int].full_name@
            == idx[j].0
    &&& forall|i: int|
        0 <= i < md.types@.len() ==> index_names(idx).contains(#[trigger] md.types@[i].full_name@)
    &&& forall|a: int, b: int|
        0 <= a < b < idx.len() ==> #[trigger] index_names(idx)[a] != #[trigger] index_names(idx)[b]
    &&& forall|a: int, b: int| 0 <= a < b < ns.len() ==> #[trigger] ns[a] != #[trigger] ns[b]
    &&& forall|i: int| 0 <= i < md.types@.len() ==> ns.contains(#[trigger] md.types@[i].namespace@)
    &&& forall|a: int|
        0 <= a < ns.len() ==> exists|i: int|
            0 <= i < md.types@.len() && md.types@[i].namespace@ == #[trigger] ns[a]
}

proof fn lemma_add_type_keeps_index_consistent(
    old_md: WinRtMetadata,
    new_md: WinRtMetadata,
    t: WinRtTypeDef,
)
    requires
        index_consistent(old_md),
        old_md.types@.len() < usize::MAX,
        new_md.types@ == old_md.types@.push(t),
        new_md.index_view() == index_insert(
            old_md.index_view(),
            t.full_name@,
            old_md.types@.len() as usize,
        ),
        new_md.namespaces_view() == (if old_md.namespaces_view().contains(t.namespace@) {
            old_md.namespaces_view()
        } else {
            old_md.namespaces_view().push(t.namespace@)
        }),
    ensures
        index_consistent(new_md),
{
    let n0 = t.full_name@;
    let l = old_md.types@.len();
    let idx = old_md.index_view();
    let nidx = new_md.index_view();
    let keys = index_names(idx);
    let nkeys = index_names(nidx);
    let ns = old_md.namespaces_view();
    let nns = new_md.namespaces_view();
    lemma_first_index(keys, n0);
    assert(new_md.types@[l as int] == t);
    assert forall|i: int| 0 <= i < l implies new_md.types@[i] == old_md.types@[i] by {}
    match first_index(keys, n0) {
        Some(j0) => {
            assert(nidx == idx.update(j0, (n0, l as usize)));
            assert(nkeys =~= keys);
        },
        None => {
            assert(nidx == idx.push((n0, l as usize)));
            assert(nkeys =~= keys.push(n0));
        },
    }
    assert forall|j: int| 0 <= j < nidx.len() implies (#[trigger] nidx[j]).1 < new_md.types@.len()
        && new_md.types@[nidx[j].1 as int].full_name@ == nidx[j].0 by {
        if nidx[j] != idx[j] || j >= idx.len() {
            assert(nidx[j] == (n0, l as usize));
        } else {
            assert(idx[j].1 < l && old_md.types@[idx[j].1 as int].full_name@ == idx[j].0);
        }
    }
    assert forall|i: int| 0 <= i < new_md.types@.len() implies nkeys.contains(
        #[trigger] new_md.types@[i].full_name@,
    ) by {
        if i < l {
            assert(keys.contains(old_md.types@[i].full_name@));
            let w = choose|w: int| 0 <= w < keys.len() && keys[w] == old_md.types@[i].full_name@;
            assert(nkeys[w] == keys[w]);
        } else {
            match first_index(keys, n0) {
                Some(j0) => {
                    assert(nkeys[j0] == n0);
                },
                None => {
                    assert(nkeys[keys.len() as int] == n0);
                },
            }
        }
    }
    assert forall|a: int, b: int| 0 <= a < b < nidx.len() implies #[trigger] nkeys[a]
        != #[trigger] nkeys[b] by {
        if b >= keys.len() {
            assert(nkeys[b] == n0);
            assert(keys[a] != n0);
        } else {
            assert(keys[a] != keys[b]);
        }
    }
    assert forall|a: int, b: int| 0 <= a < b < nns.len() implies #[trigger] nns[a]
        != #[trigger] nns[b] by {
        if b >= ns.len() {
            assert(!ns.contains(t.namespace@));
            assert(ns[a] == nns[a]);
        } else {
            assert(ns[a] != ns[b]);
        }
    }
    assert forall|i: int| 0 <= i < new_md.types@.len() implies nns.contains(
        #[trigger] new_md.types@[i].namespace@,
    ) by {
        if i < l {
            assert(ns.contains(old_md.types@[i].namespace@));
            let w = choose|w: int| 0 <= w < ns.len() && ns[w] == old_md.types@[i].namespace@;
            assert(nns[w] == ns[w]);
        } else if !ns.contains(t.namespace@) {
            assert(nns[ns.len() as int] == t.namespace@);
        }
    }
    assert forall|a: int| 0 <= a < nns.len() implies exists|i: int|
        0 <= i < new_md.types@.len() && new_md.types@[i].namespace@ == #[trigger] nns[a] by {
        if a < ns.len() {
            assert(nns[a] == ns[a]);
            let i = choose|i: int| 0 <= i < l && old_md.types@[i].namespace@ == #[trigger] ns[a];
            assert(new_md.types@[i] == old_md.types@[i]);
        } else {
            assert(new_md.types@[l as int].namespace@ == nns[a]);
        }
    }
}

proof fn lemma_add_type_keeps_wf(old_md: WinRtMetadata, new_md: WinRtMetadata, t: WinRtTypeDef)
    requires
        old_md.wf(),
        old_md.types@.len() < usize::MAX,
        new_md.types@ == old_md.types@.push(t),
        new_md.index_view() == index_insert(
            old_md.index_view(),
            t.full_name@,
            old_md.types@.len() as usize,
        ),
        new_md.namespaces_view() == (if old_md.namespaces_view().contains(t.namespace@) {
            old_md.namespaces_view()
        } else {
            old_md.namespaces_view().push(t.namespace@)
        }),
    ensures
        new_md.wf(),
{
    let n0 = t.full_name@;
    let len = old_md.types@.len();
    let l = len as usize;
    let idx = old_md.index_view();
    let nidx = new_md.index_view();
    let keys = index_names(idx);
    assert(full_names(new_md.types@) =~= full_names(old_md.types@).push(n0));
    assert(new_md.types@.drop_last() =~= old_md.types@);
    lemma_first_index(keys, n0);
    assert forall|name: Seq<char>| #[trigger]
        new_md.lookup(name) == last_index(full_names(new_md.types@), name) by {
        lemma_last_index_push(full_names(old_md.types@), n0, name);
        assert(old_md.lookup(name) == last_index(full_names(old_md.types@), name));
        lemma_first_index(keys, name);
        match first_index(keys, n0) {
            Some(j) => {
                assert(nidx == idx.update(j, (n0, l)));
                assert(index_names(nidx) =~= keys);
                if name == n0 {
                    assert(first_index(index_names(nidx), name) == Some(j));
                    assert(nidx[j].1 == l);
                } else {
                    match first_index(keys, name) {
                        Some(j2) => {
                            assert(j2 != j);
                            assert(nidx[j2] == idx[j2]);
                        },
                        None => {},
                    }
                }
            },
            None => {
                assert(nidx == idx.push((n0, l)));
                assert(index_names(nidx) =~= keys.push(n0));
                lemma_first_index_push(keys, n0, name);
                match first_index(keys, name) {
                    Some(j2) => {
                        assert(nidx[j2] == idx[j2]);
                    },
                    None => {
                        if name == n0 {
                            assert(nidx[keys.len() as int].1 == l);
                        }
                    },
                }
            },
        }
    }
}

/// Recording a position for a name leads that name to the new position and
/// leaves the position of every other name as it was.
pub proof fn lemma_index_insert_lookup(
    idx: Seq<(Seq<char>, usize)>,
    name: Seq<char>,
    i: usize,
    other: Seq<char>,
)
    ensures
        index_lookup(index_insert(idx, name, i), name) == Some(i as int),
        other != name ==> index_lookup(index_insert(idx, name, i), other) == index_lookup(
            idx,
            other,
        ),
{
    let keys = index_names(idx);
    let nidx = index_insert(idx, name, i);
    lemma_first_index(keys, name);
    lemma_first_index(keys, other);
    match first_index(keys, name) {
        Some(j) => {
            assert(index_names(nidx) =~= keys);
            assert(nidx[j].1 == i);
            match first_index(keys, other) {
                Some(j2) => {
                    if other != name {
                        assert(j2 != j);
                        assert(nidx[j2] == idx[j2]);
                    }
                },
                None => {},
            }
        },
        None => {
            assert(index_names(nidx) =~= keys.push(name));
            lemma_first_index_push(keys, name, name);
            lemma_first_index_push(keys, name, other);
            assert(nidx[keys.len() as int].1 == i);
            match first_index(keys, other) {
                Some(j2) => {
                    assert(nidx[j2] == idx[j2]);
                },
                None => {},
            }
        },
    }
}

/// In well-formed metadata, looking a name up gives the last definition
/// added under that name, and nothing for a name never added.
pub proof fn lemma_lookup_is_last_added(md: WinRtMetadata, name: Seq<char>)
    requires
        md.wf(),
    ensures
        md.lookup(name) matches Some(i) ==> 0 <= i < md.types@.len() && md.types@[i].full_name@
            == name && forall|k: int| i < k < md.types@.len() ==> md.types@[k].full_name@ != name,
        md.lookup(name) is None ==> forall|k: int|
            0 <= k < md.types@.len() ==> md.types@[k].full_name@ != name,
{
    let names = full_names(md.types@);
    crate::text::lemma_last_index(names, name);
    assert(md.lookup(name) == last_index(names, name));
    match md.lookup(name) {
        Some(i) => {
            assert(names[i] == md.types@[i].full_name@);
            assert forall|k: int| i < k < md.types@.len() implies md.types@[k].full_name@
                != name by {
                assert(names[k] == md.types@[k].full_name@);
            }
        },
        None => {
            assert forall|k: int| 0 <= k < md.types@.len() implies md.types@[k].full_name@
                != name by {
                assert(names[k] == md.types@[k].full_name@);
            }
        },
    }
}

/// After a definition is added to well-formed metadata, its name leads to
/// it, and every other name leads where it did before.
pub proof fn lemma_lookup_after_add(
    old_md: WinRtMetadata,
    new_md: WinRtMetadata,
    t: WinRtTypeDef,
    other: Seq<char>,
)
    requires
        old_md.wf(),
        new_md.wf(),
        new_md.types@ == old_md.types@.push(t),
    ensures
        new_md.lookup(t.full_name@) == Some(old_md.types@.len() as int),
        new_md.types@[old_md.types@.len() as int] == t,
        other != t.full_name@ ==> new_md.lookup(other) == old_md.lookup(other),
{
    assert(full_names(new_md.types@) =~= full_names(old_md.types@).push(t.full_name@));
    lemma_last_index_push(full_names(old_md.types@), t.full_name@, t.full_name@);
    lemma_last_index_push(full_names(old_md.types@), t.full_name@, other);
    assert(new_md.lookup(t.full_name@) == last_index(full_names(new_md.types@), t.full_name@));
    assert(new_md.lookup(other) == last_index(full_names(new_md.types@), other));
    assert(old_md.lookup(other) == last_index(full_names(old_md.types@), other));
}

/// The recorded namespaces of well-formed metadata: no namespace twice, the
/// namespace of every definition among them, and each of them the namespace
/// of some definition.
pub proof fn lemma_namespaces_of(types: Seq<WinRtTypeDef>)
    ensures
        forall|a: int, b: int|
            0 <= a < b < namespaces_of(types).len() ==> namespaces_of(types)[a]
                != namespaces_of(types)[b],
        forall|k: int| 0 <= k < types.len() ==> namespaces_of(types).contains(types[k].namespace@),
        forall|a: int|
            0 <= a < namespaces_of(types).len() ==> exists|k: int|
                0 <= k < types.len() && types[k].namespace@ == #[trigger] namespaces_of(types)[a],
    decreases types.len(),
{
    if types.len() > 0 {
        let prev_types = types.drop_last();
        lemma_namespaces_of(prev_types);
        let prev = namespaces_of(prev_types);
        let ns = types.last().namespace@;
        assert forall|k: int| 0 <= k < types.len() implies namespaces_of(types).contains(
            types[k].namespace@,
        ) by {
            if k < types.len() - 1 {
                assert(prev_types[k] == types[k]);
                assert(prev.contains(types[k].namespace@));
                let w = choose|w: int| 0 <= w < prev.len() && prev[w] == types[k].namespace@;
                if !prev.contains(ns) {
                    assert(prev.push(ns)[w] == prev[w]);
                }
            } else {
                if !prev.contains(ns) {
                    assert(prev.push(ns)[prev.len() as int] == ns);
                }
            }
        }
        assert forall|a: int| 0 <= a < namespaces_of(types).len() implies exists|k: int|
            0 <= k < types.len() && types[k].namespace@ == #[trigger] namespaces_of(types)[a] by {
            if a < prev.len() {
                let k = choose|k: int|
                    0 <= k < prev_types.len() && prev_types[k].namespace@ == #[trigger] prev[a];
                assert(types[k] == prev_types[k]);
                if !prev.contains(ns) {
                    assert(namespaces_of(types)[a] == prev[a]);
                }
            } else {
                assert(types[types.len() - 1].namespace@ == ns);
            }
        }
    }
}

// ---------------------------------------------------------------------------
// Built-in metadata
// ---------------------------------------------------------------------------

/// A method that is neither overloaded nor has a default overload.
pub open spec fn method_view(
    name: Seq<char>,
    return_type: Seq<char>,
    parameters: Seq<(Seq<char>, Seq<char>)>,
    is_static: bool,
) -> MethodView {
    MethodView {
        name,
        return_type,
        parameters,
        is_static,
        is_overload: false,
        default_overload: None,
    }
}

/// An instance property with a getter.
pub open spec fn property_view(name: Seq<char>, property_type: Seq<char>, has_setter: bool) -> PropertyView {
    PropertyView { name, property_type, has_getter: true, has_setter, is_static: false }
}

/// What [`builtin_metadata`] holds, in order.
pub open spec fn builtin_type_views() -> Seq<TypeDefView> {
    seq![
        TypeDefView {
            full_name: "Windows.Foundation.IStringable"@,
            namespace: "Windows.Foundation"@,
            name: "IStringable"@,
            kind: WinRtTypeKind::Interface,
            base_type: None,
            interfaces: Seq::empty(),
            methods: seq![method_view("ToString"@, "String"@, Seq::empty(), false)],
            properties: Seq::empty(),
            events: Seq::empty(),
            is_activatable: false,
            is_sealed: false,
            is_static: false,
            generic_params: Seq::empty(),
        },
        TypeDefView {
            full_name: "Windows.Foundation.IClosable"@,
            namespace: "Windows.Foundation"@,
            name: "IClosable"@,
            kind: WinRtTypeKind::Interface,
            base_type: None,
            interfaces: Seq::empty(),
            methods: seq![method_view("Close"@, "Void"@, Seq::empty(), false)],
            properties: Seq::empty(),
            events: Seq::empty(),
            is_activatable: false,
            is_sealed: false,
            is_static: false,
            generic_params: Seq::empty(),
        },
        TypeDefView {
            full_name: "Windows.Foundation.Uri"@,
            namespace: "Windows.Foundation"@,
            name: "Uri"@,
            kind: WinRtTypeKind::RuntimeClass,
            base_type: Some("System.Object"@),
            interfaces: seq!["Windows.Foundation.IStringable"@],
            methods: seq![method_view(".ctor"@, "Void"@, seq![("uri"@, "String"@)], false), method_view("ToString"@, "String"@, Seq::empty(), false)],
            properties: seq![property_view("AbsoluteUri"@, "String"@, false), property_view("Host"@, "String"@, false), property_view("Path"@, "String"@, false), property_view("Port"@, "Int32"@, false), property_view("SchemeName"@, "String"@, false)],
            events: Seq::empty(),
            is_activatable: true,
            is_sealed: true,
            is_static: false,
            generic_params: Seq::empty(),
        },
        TypeDefView {
            full_name: "Windows.Foundation.DateTime"@,
            namespace: "Windows.Foundation"@,
            name: "DateTime"@,
            kind: WinRtTypeKind::Struct,
            base_type: None,
            interfaces: Seq::empty(),
            methods: Seq::empty(),
            properties: seq![property_view("UniversalTime"@, "Int64"@, true)],
            events: Seq::empty(),
            is_activatable: false,
            is_sealed: true,
            is_static: false,
            generic_params: Seq::empty(),
        },
        TypeDefView {
            full_name: "Windows.Foundation.TimeSpan"@,
            namespace: "Windows.Foundation"@,
            name: "TimeSpan"@,
            kind: WinRtTypeKind::Struct,
            base_type: None,
            interfaces: Seq::empty(),
            methods: Seq::empty(),
            properties: seq![property_view("Duration"@, "Int64"@, true)],
            events: Seq::empty(),
            is_activatable: false,
            is_sealed: true,
            is_static: false,
            generic_params: Seq::empty(),
        },
        TypeDefView {
            full_name: "Windows.Storage.StorageFile"@,
            namespace: "Windows.Storage"@,
            name: "StorageFile"@,
            kind: WinRtTypeKind::RuntimeClass,
            base_type: Some("System.Object"@),
            interfaces: seq!["Windows.Foundation.IStringable"@, "Windows.Foundation.IClosable"@],
            methods: seq![method_view("GetFileFromPathAsync"@, "IAsyncOperation<StorageFile>"@, seq![("path"@, "String"@)], true)],
            properties: seq![property_view("Name"@, "String"@, false), property_view("Path"@, "String"@, false), property_view("FileType"@, "String"@, false)],
            events: Seq::empty(),
            is_activatable: false,
            is_sealed: true,
            is_static: false,
            generic_params: Seq::empty(),
        },
        TypeDefView {
            full_name: "Windows.Storage.StorageFolder"@,
            namespace: "Windows.Storage"@,
            name: "StorageFolder"@,
            kind: WinRtTypeKind::RuntimeClass,
            base_type: Some("System.Object"@),
            interfaces: seq!["Windows.Foundation.IStringable"@],
            methods: seq![method_view("GetFolderFromPathAsync"@, "IAsyncOperation<StorageFolder>"@, seq![("path"@, "String"@)], true)],
            properties: seq![property_view("Name"@, "String"@, false), property_view("Path"@, "String"@, false)],
            events: Seq::empty(),
            is_activatable: false,
            is_sealed: true,
            is_static: false,
            generic_params: Seq::empty(),
        },
        TypeDefView {
            full_name: "Windows.UI.Colors"@,
            namespace: "Windows.UI"@,
            name: "Colors"@,
            kind: WinRtTypeKind::RuntimeClass,
            base_type: Some("System.Object"@),
            interfaces: Seq::empty(),
            methods: Seq::empty(),
            properties: Seq::empty(),
            events: Seq::empty(),
            is_activatable: false,
            is_sealed: true,
            is_static: true,
            generic_params: Seq::empty(),
        },
        TypeDefView {
            full_name: "Windows.Networking.HostName"@,
            namespace: "Windows.Networking"@,
            name: "HostName"@,
            kind: WinRtTypeKind::RuntimeClass,
            base_type: Some("System.Object"@),
            interfaces: seq!["Windows.Foundation.IStringable"@],
            methods: seq![method_view(".ctor"@, "Void"@, seq![("hostName"@, "String"@)], false)],
            properties: seq![property_view("DisplayName"@, "String"@, false), property_view("RawName"@, "String"@, false), property_view("Type"@, "HostNameType"@, false)],
            events: Seq::empty(),
            is_activatable: true,
            is_sealed: true,
            is_static: false,
            generic_params: Seq::empty(),
        },
    ]
}

/// The index of [`builtin_metadata`]: each built-in full name once, in
/// order, with its position among the definitions.
pub open spec fn builtin_index() -> Seq<(Seq<char>, usize)> {
    Seq::new(9, |i: int| (builtin_type_views()[i].full_name, i as usize))
}

/// The built-in full names differ from one another.
proof fn lemma_builtin_names_distinct()
    ensures
        forall|i: int, j: int|
            0 <= i < j < 9 ==> builtin_type_views()[i].full_name
                != builtin_type_views()[j].full_name,
{
    reveal_strlit("Windows.Foundation.IStringable");
    reveal_strlit("Windows.Foundation.IClosable");
    reveal_strlit("Windows.Foundation.Uri");
    reveal_strlit("Windows.Foundation.DateTime");
    reveal_strlit("Windows.Foundation.TimeSpan");
    reveal_strlit("Windows.Storage.StorageFile");
    reveal_strlit("Windows.Storage.StorageFolder");
    reveal_strlit("Windows.UI.Colors");
    reveal_strlit("Windows.Networking.HostName");
    let v = builtin_type_views();
    let n = Seq::new(9, |i: int| v[i].full_name);
    assert(n[0].len() == 30 && n[1].len() == 28 && n[2].len() == 22 && n[3].len() == 27
        && n[4].len() == 27 && n[5].len() == 27 && n[6].len() == 29 && n[7].len() == 17
        && n[8].len() == 27);
    // The names of length 27 differ at position 8 or 19.
    assert(n[3][19] != n[4][19] && n[3][8] != n[5][8] && n[3][8] != n[8][8] && n[4][8] != n[5][8]
        && n[4][8] != n[8][8] && n[5][8] != n[8][8]);
    assert forall|i: int, j: int| 0 <= i < j < 9 implies v[i].full_name != v[j].full_name by {
        assert(n[i] == v[i].full_name && n[j] == v[j].full_name);
    }
}

/// Adding the `k`-th built-in definition appends its name and position to
/// the index built from the ones before it.
proof fn lemma_builtin_index_step(k: int)
    requires
        0 <= k < 9,
    ensures
        index_insert(builtin_index().take(k), builtin_type_views()[k].full_name, k as usize)
            == builtin_index().take(k + 1),
{
    let idx = builtin_index().take(k);
    let names = index_names(idx);
    let name = builtin_type_views()[k].full_name;
    lemma_builtin_names_distinct();
    assert forall|j: int| 0 <= j < names.len() implies names[j] != name by {
        assert(names[j] == builtin_type_views()[j].full_name);
    }
    lemma_first_index(names, name);
    assert(idx.push((name, k as usize)) =~= builtin_index().take(k + 1));
}

/// A `String` holding `s`.
fn owned(s: &str) -> (r: String)
    ensures
        r@ == s@,
{
    s.to_owned()
}

/// A parameter: its name and its type name.
fn param(name: &str, ty: &str) -> (p: (String, String))
    ensures
        p.0@ == name@,
        p.1@ == ty@,
{
    (owned(name), owned(ty))
}

/// A method that is neither overloaded nor has a default overload.
fn method_def(
    name: &str,
    return_type: &str,
    parameters: Vec<(String, String)>,
    is_static: bool,
) -> (m: WinRtMethodDef)
    ensures
        m@ == method_view(
            name@,
            return_type@,
            parameters@.map_values(|p: (String, String)| (p.0@, p.1@)),
            is_static,
        ),
{
    WinRtMethodDef {
        name: owned(name),
        return_type: owned(return_type),
        parameters,
        is_static,
        is_overload: false,
        default_overload: None,
    }
}

/// An instance property with a getter.
fn property_def(name: &str, property_type: &str, has_setter: bool) -> (p: WinRtPropertyDef)
    ensures
        p@ == property_view(name@, property_type@, has_setter),
{
    WinRtPropertyDef {
        name: owned(name),
        property_type: owned(property_type),
        has_getter: true,
        has_setter,
        is_static: false,
    }
}

/// Metadata for commonly used types of `Windows.Foundation`,
/// `Windows.Storage`, `Windows.UI` and `Windows.Networking`, without
/// parsing a `.winmd` file.
#[verifier::rlimit(50)]
pub fn builtin_metadata() -> (r: WinRtMetadata)
    ensures
        r.types@.map_values(|t: WinRtTypeDef| t@) == builtin_type_views(),
        r.index_view() == builtin_index(),
        r.namespaces_view() == seq![
            "Windows.Foundation"@,
            "Windows.Storage"@,
            "Windows.UI"@,
            "Windows.Networking"@,
        ],
        r.wf(),
        index_consistent(r),
{
    proof {
        reveal_strlit("Windows.Foundation");
        reveal_strlit("Windows.Storage");
        reveal_strlit("Windows.UI");
        reveal_strlit("Windows.Networking");
    }
    assert("Windows.Storage"@ != "Windows.Foundation"@) by {
        assert("Windows.Storage"@[8] != "Windows.Foundation"@[8]);
    }
    assert("Windows.UI"@ != "Windows.Foundation"@ && "Windows.UI"@ != "Windows.Storage"@) by {
        assert("Windows.UI"@[8] != "Windows.Foundation"@[8]);
        assert("Windows.UI"@[8] != "Windows.Storage"@[8]);
    }
    assert("Windows.Networking"@ != "Windows.Foundation"@ && "Windows.Networking"@
        != "Windows.Storage"@ && "Windows.Networking"@ != "Windows.UI"@) by {
        assert("Windows.Networking"@[8] != "Windows.Foundation"@[8]);
        assert("Windows.Networking"@[8] != "Windows.Storage"@[8]);
        assert("Windows.Networking"@[8] != "Windows.UI"@[8]);
    }
    let mut meta = WinRtMetadata::new();
    assert(meta.index_view() =~= builtin_index().take(0));
    // IStringable
    let t0 = WinRtTypeDef {
        full_name: owned("Windows.Foundation.IStringable"),
        namespace: owned("Windows.Foundation"),
        name: owned("IStringable"),
        kind: WinRtTypeKind::Interface,
        base_type: None,
        interfaces: Vec::new(),
        methods: vec![method_def("ToString", "String", Vec::new(), false)],
        properties: Vec::new(),
        events: Vec::new(),
        is_activatable: false,
        is_sealed: false,
        is_static: false,
        generic_params: Vec::new(),
    };
    assert(t0@ =~~= builtin_type_views()[0]);
    meta.add_type(t0);
    proof {
        lemma_builtin_index_step(0);
    }
    assert(meta.index_view() == builtin_index().take(1));
    assert(meta.namespaces_view() =~= seq!["Windows.Foundation"@]);
    // IClosable (the IDisposable equivalent)
    let t1 = WinRtTypeDef {
        full_name: owned("Windows.Foundation.IClosable"),
        namespace: owned("Windows.Foundation"),
        name: owned("IClosable"),
        kind: WinRtTypeKind::Interface,
        base_type: None,
        interfaces: Vec::new(),
        methods: vec![method_def("Close", "Void", Vec::new(), false)],
        properties: Vec::new(),
        events: Vec::new(),
        is_activatable: false,
        is_sealed: false,
        is_static: false,
        generic_params: Vec::new(),
    };
    assert(t1@ =~~= builtin_type_views()[1]);
    assert(meta.namespaces_view()[0] == "Windows.Foundation"@);
    meta.add_type(t1);
    proof {
        lemma_builtin_index_step(1);
    }
    assert(meta.index_view() == builtin_index().take(2));
    assert(meta.namespaces_view() =~= seq!["Windows.Foundation"@]);
    // Uri
    let t2 = WinRtTypeDef {
        full_name: owned("Windows.Foundation.Uri"),
        namespace: owned("Windows.Foundation"),
        name: owned("Uri"),
        kind: WinRtTypeKind::RuntimeClass,
        base_type: Some(owned("System.Object")),
        interfaces: vec![owned("Windows.Foundation.IStringable")],
        methods: vec![method_def(".ctor", "Void", vec![param("uri", "String")], false), method_def("ToString", "String", Vec::new(), false)],
        properties: vec![property_def("AbsoluteUri", "String", false), property_def("Host", "String", false), property_def("Path", "String", false), property_def("Port", "Int32", false), property_def("SchemeName", "String", false)],
        events: Vec::new(),
        is_activatable: true,
        is_sealed: true,
        is_static: false,
        generic_params: Vec::new(),
    };
    assert(t2@ =~~= builtin_type_views()[2]);
    assert(meta.namespaces_view()[0] == "Windows.Foundation"@);
    meta.add_type(t2);
    proof {
        lemma_builtin_index_step(2);
    }
    assert(meta.index_view() == builtin_index().take(3));
    assert(meta.namespaces_view() =~= seq!["Windows.Foundation"@]);
    // DateTime
    let t3 = WinRtTypeDef {
        full_name: owned("Windows.Foundation.DateTime"),
        namespace: owned("Windows.Foundation"),
        name: owned("DateTime"),
        kind: WinRtTypeKind::Struct,
        base_type: None,
        interfaces: Vec::new(),
        methods: Vec::new(),
        properties: vec![property_def("UniversalTime", "Int64", true)],
        events: Vec::new(),
        is_activatable: false,
        is_sealed: true,
        is_static: false,
        generic_params: Vec::new(),
    };
    assert(t3@ =~~= builtin_type_views()[3]);
    assert(meta.namespaces_view()[0] == "Windows.Foundation"@);
    meta.add_type(t3);
    proof {
        lemma_builtin_index_step(3);
    }
    assert(meta.index_view() == builtin_index().take(4));
    assert(meta.namespaces_view() =~= seq!["Windows.Foundation"@]);
    // TimeSpan
    let t4 = WinRtTypeDef {
        full_name: owned("Windows.Foundation.TimeSpan"),
        namespace: owned("Windows.Foundation"),
        name: owned("TimeSpan"),
        kind: WinRtTypeKind::Struct,
        base_type: None,
        interfaces: Vec::new(),
        methods: Vec::new(),
        properties: vec![property_def("Duration", "Int64", true)],
        events: Vec::new(),
        is_activatable: false,
        is_sealed: true,
        is_static: false,
        generic_params: Vec::new(),
    };
    assert(t4@ =~~= builtin_type_views()[4]);
    assert(meta.namespaces_view()[0] == "Windows.Foundation"@);
    meta.add_type(t4);
    proof {
        lemma_builtin_index_step(4);
    }
    assert(meta.index_view() == builtin_index().take(5));
    assert(meta.namespaces_view() =~= seq!["Windows.Foundation"@]);
    // Windows.Storage.StorageFile
    let t5 = WinRtTypeDef {
        full_name: owned("Windows.Storage.StorageFile"),
        namespace: owned("Windows.Storage"),
        name: owned("StorageFile"),
        kind: WinRtTypeKind::RuntimeClass,
        base_type: Some(owned("System.Object")),
        interfaces: vec![owned("Windows.Foundation.IStringable"), owned("Windows.Foundation.IClosable")],
        methods: vec![method_def("GetFileFromPathAsync", "IAsyncOperation<StorageFile>", vec![param("path", "String")], true)],
        properties: vec![property_def("Name", "String", false), property_def("Path", "String", false), property_def("FileType", "String", false)],
        events: Vec::new(),
        is_activatable: false,
        is_sealed: true,
        is_static: false,
        generic_params: Vec::new(),
    };
    assert(t5@ =~~= builtin_type_views()[5]);
    assert(meta.namespaces_view()[0] == "Windows.Foundation"@);
    meta.add_type(t5);
    proof {
        lemma_builtin_index_step(5);
    }
    assert(meta.index_view() == builtin_index().take(6));
    assert(meta.namespaces_view() =~= seq!["Windows.Foundation"@, "Windows.Storage"@]);
    // Windows.Storage.StorageFolder
    let t6 = WinRtTypeDef {
        full_name: owned("Windows.Storage.StorageFolder"),
        namespace: owned("Windows.Storage"),
        name: owned("StorageFolder"),
        kind: WinRtTypeKind::RuntimeClass,
        base_type: Some(owned("System.Object")),
        interfaces: vec![owned("Windows.Foundation.IStringable")],
        methods: vec![method_def("GetFolderFromPathAsync", "IAsyncOperation<StorageFolder>", vec![param("path", "String")], true)],
        properties: vec![property_def("Name", "String", false), property_def("Path", "String", false)],
        events: Vec::new(),
        is_activatable: false,
        is_sealed: true,
        is_static: false,
        generic_params: Vec::new(),
    };
    assert(t6@ =~~= builtin_type_views()[6]);
    assert(meta.namespaces_view()[1] == "Windows.Storage"@);
    meta.add_type(t6);
    proof {
        lemma_builtin_index_step(6);
    }
    assert(meta.index_view() == builtin_index().take(7));
    assert(meta.namespaces_view() =~= seq!["Windows.Foundation"@, "Windows.Storage"@]);
    // Windows.UI.Colors (its static color properties are not listed)
    let t7 = WinRtTypeDef {
        full_name: owned("Windows.UI.Colors"),
        namespace: owned("Windows.UI"),
        name: owned("Colors"),
        kind: WinRtTypeKind::RuntimeClass,
        base_type: Some(owned("System.Object")),
        interfaces: Vec::new(),
        methods: Vec::new(),
        properties: Vec::new(),
        events: Vec::new(),
        is_activatable: false,
        is_sealed: true,
        is_static: true,
        generic_params: Vec::new(),
    };
    assert(t7@ =~~= builtin_type_views()[7]);
    assert(meta.namespaces_view()[0] == "Windows.Foundation"@);
    meta.add_type(t7);
    proof {
        lemma_builtin_index_step(7);
    }
    assert(meta.index_view() == builtin_index().take(8));
    assert(meta.namespaces_view() =~= seq!["Windows.Foundation"@, "Windows.Storage"@, "Windows.UI"@]);
    // Windows.Networking.HostName
    let t8 = WinRtTypeDef {
        full_name: owned("Windows.Networking.HostName"),
        namespace: owned("Windows.Networking"),
        name: owned("HostName"),
        kind: WinRtTypeKind::RuntimeClass,
        base_type: Some(owned("System.Object")),
        interfaces: vec![owned("Windows.Foundation.IStringable")],
        methods: vec![method_def(".ctor", "Void", vec![param("hostName", "String")], false)],
        properties: vec![property_def("DisplayName", "String", false), property_def("RawName", "String", false), property_def("Type", "HostNameType", false)],
        events: Vec::new(),
        is_activatable: true,
        is_sealed: true,
        is_static: false,
        generic_params: Vec::new(),
    };
    assert(t8@ =~~= builtin_type_views()[8]);
    assert(meta.namespaces_view()[0] == "Windows.Foundation"@);
    meta.add_type(t8);
    proof {
        lemma_builtin_index_step(8);
    }
    assert(meta.index_view() == builtin_index().take(9));
    assert(meta.namespaces_view() =~= seq!["Windows.Foundation"@, "Windows.Storage"@, "Windows.UI"@, "Windows.Networking"@]);
    assert(meta.types@.map_values(|t: WinRtTypeDef| t@) =~~= builtin_type_views());
    assert(builtin_index().take(9) =~= builtin_index());
    meta
}

/// In the built-in metadata, looking up `Windows.Storage.StorageFile` and
/// `Windows.Storage.StorageFolder` gives the storage classes, each with its
/// one static factory method taking a `path` string and returning an
/// `IAsyncOperation` of that class.
pub proof fn lemma_builtin_storage_types(md: WinRtMetadata)
    requires
        md.types@.map_values(|t: WinRtTypeDef| t@) == builtin_type_views(),
        md.index_view() == builtin_index(),
    ensures
        md.lookup("Windows.Storage.StorageFile"@) matches Some(i) && md.types@[i]@.name
            == "StorageFile"@ && md.types@[i]@.methods == seq![
            MethodView {
                name: "GetFileFromPathAsync"@,
                return_type: "IAsyncOperation<StorageFile>"@,
                parameters: seq![("path"@, "String"@)],
                is_static: true,
                is_overload: false,
                default_overload: None,
            },
        ],
        md.lookup("Windows.Storage.StorageFolder"@) matches Some(i) && md.types@[i]@.name
            == "StorageFolder"@ && md.types@[i]@.methods == seq![
            MethodView {
                name: "GetFolderFromPathAsync"@,
                return_type: "IAsyncOperation<StorageFolder>"@,
                parameters: seq![("path"@, "String"@)],
                is_static: true,
                is_overload: false,
                default_overload: None,
            },
        ],
{
    lemma_builtin_names_distinct();
    let v = builtin_type_views();
    let keys = index_names(md.index_view());
    assert(keys.len() == 9);
    assert forall|k: int| 0 <= k < 9 implies #[trigger] keys[k] == v[k].full_name by {}
    lemma_first_index(keys, v[5].full_name);
    lemma_first_index(keys, v[6].full_name);
    assert(first_index(keys, v[5].full_name) == Some(5int)) by {
        assert(keys[5] == v[5].full_name);
        if let Some(k) = first_index(keys, v[5].full_name) {
            assert(keys[k] == v[k].full_name);
        }
    }
    assert(first_index(keys, v[6].full_name) == Some(6int)) by {
        assert(keys[6] == v[6].full_name);
        if let Some(k) = first_index(keys, v[6].full_name) {
            assert(keys[k] == v[k].full_name);
        }
    }
    assert(md.index_view()[5].1 == 5 && md.index_view()[6].1 == 6);
    let views = md.types@.map_values(|t: WinRtTypeDef| t@);
    assert(v.len() == 9);
    assert(views.len() == md.types@.len());
    assert(md.types@.len() == 9);
    assert(views[5] == md.types@[5]@ && views[6] == md.types@[6]@);
    assert(md.types@[5]@ == v[5]);
    assert(md.types@[6]@ == v[6]);
    assert(v[5].full_name == "Windows.Storage.StorageFile"@);
    assert(v[6].full_name == "Windows.Storage.StorageFolder"@);
    assert(v[5].methods =~~= seq![
        MethodView {
            name: "GetFileFromPathAsync"@,
            return_type: "IAsyncOperation<StorageFile>"@,
            parameters: seq![("path"@, "String"@)],
            is_static: true,
            is_overload: false,
            default_overload: None,
        },
    ]);
    assert(v[6].methods =~~= seq![
        MethodView {
            name: "GetFolderFromPathAsync"@,
            return_type: "IAsyncOperation<StorageFolder>"@,
            parameters: seq![("path"@, "String"@)],
            is_static: true,
            is_overload: false,
            default_overload: None,
        },
    ]);
}

/// The definitions of a namespace are exactly those definitions whose
/// namespace it is, each kept once and in order.
pub proof fn lemma_in_namespace(types: Seq<WinRtTypeDef>, ns: Seq<char>)
    ensures
        in_namespace(types, ns).len() <= types.len(),
        forall|i: int|
            0 <= i < in_namespace(types, ns).len() ==> (#[trigger] in_namespace(types, ns)[i]).namespace@
                == ns,
        forall|k: int|
            0 <= k < types.len() && types[k].namespace@ == ns ==> in_namespace(types, ns).contains(
                types[k],
            ),
    decreases types.len(),
{
    if types.len() > 0 {
        let prev_types = types.drop_last();
        lemma_in_namespace(prev_types, ns);
        let prev = in_namespace(prev_types, ns);
        assert forall|k: int| 0 <= k < types.len() && types[k].namespace@ == ns implies in_namespace(
            types,
            ns,
        ).contains(types[k]) by {
            if k < types.len() - 1 {
                assert(prev_types[k] == types[k]);
                let w = choose|w: int| 0 <= w < prev.len() && prev[w] == types[k];
                if types.last().namespace@ == ns {
                    assert(prev.push(types.last())[w] == types[k]);
                }
            } else {
                assert(prev.push(types.last())[prev.len() as int] == types[k]);
            }
        }
    }
}

/// The definitions of a kind are exactly those definitions of that kind,
/// each kept once and in order.
pub proof fn lemma_of_kind(types: Seq<WinRtTypeDef>, kind: WinRtTypeKind)
    ensures
        of_kind(types, kind).len() <= types.len(),
        forall|i: int|
            0 <= i < of_kind(types, kind).len() ==> (#[trigger] of_kind(types, kind)[i]).kind == kind,
        forall|k: int|
            0 <= k < types.len() && types[k].kind == kind ==> of_kind(types, kind).contains(types[k]),
    decreases types.len(),
{
    if types.len() > 0 {
        let prev_types = types.drop_last();
        lemma_of_kind(prev_types, kind);
        let prev = of_kind(prev_types, kind);
        assert forall|k: int| 0 <= k < types.len() && types[k].kind == kind implies of_kind(
            types,
            kind,
        ).contains(types[k]) by {
            if k < types.len() - 1 {
                assert(prev_types[k] == types[k]);
                let w = choose|w: int| 0 <= w < prev.len() && prev[w] == types[k];
                if types.last().kind == kind {
                    assert(prev.push(types.last())[w] == types[k]);
                }
            } else {
                assert(prev.push(types.last())[prev.len() as int] == types[k]);
            }
        }
    }
}

/// A `.winmd` parsing error.
#[derive(Debug, Clone)]
pub enum WinMdError {
    /// Invalid file format.
    InvalidFormat(String),
    /// Missing required metadata.
    MissingMetadata(String),
}

/// Parses WinRT metadata from the bytes of a `.winmd` file.
///
/// The type tables are not decoded yet: every input gives empty metadata.
pub fn parse_winmd(data: &[u8]) -> (r: Result<WinRtMetadata, WinMdError>)
    ensures
        r matches Ok(m) && m.types@.len() == 0 && m.index_view().len() == 0
            && m.namespaces_view().len() == 0 && m.wf(),
{
    Ok(WinRtMetadata::new())
}

} // verus!
