//! WinRT activation: HSTRINGs, GUIDs, activation factories and the object
//! table (`RoActivateInstance`, `RoGetActivationFactory`).
//!
//! Process-wide state (the registry slot and the handle counter) is passed
//! in explicitly; the functions here compute how that state changes.

use std::collections::BTreeMap;
use vstd::prelude::*;

use crate::text::{first_from, first_index, lemma_first_index, str_eq, encode_utf16, hex_digits, push_hex, string_of_chars, utf16_encode, utf16_of_char};

verus! {

broadcast use vstd::laws_cmp::group_laws_cmp;

/// HRESULT: success.
pub const S_OK: i32 = 0;

/// HRESULT 0x80004005: unspecified failure.
pub const E_FAIL: i32 = -2147467259;

/// HRESULT 0x80070057: an argument is invalid.
pub const E_INVALIDARG: i32 = -2147024809;

/// HRESULT 0x80004002: the interface is not supported.
pub const E_NOINTERFACE: i32 = -2147467262;

/// HRESULT 0x80040154: no factory is registered for the class.
pub const E_CLASSNOTREGISTERED: i32 = -2147221164;

/// HRESULT 0x80000011: the metadata name was not found.
pub const RO_E_METADATA_NAME_NOT_FOUND: i32 = -2147483631;

// ---------------------------------------------------------------------------
// HSTRING
// ---------------------------------------------------------------------------

/// An HSTRING: an immutable string kept both as UTF-16 code units and as text.
#[derive(Debug, Clone, PartialEq, Eq, Hash)]
pub struct HString {
    /// UTF-16 code units of `utf8`.
    data: Vec<u16>,
    /// The text itself.
    utf8: String,
}

impl View for HString {
    type V = Seq<char>;

    /// The characters of the string.
    closed spec fn view(&self) -> Seq<char> {
        self.utf8@
    }
}

impl HString {
    /// The UTF-16 code units held by the string.
    pub closed spec fn wide(&self) -> Seq<u16> {
        self.data@
    }

    /// Whether the code units are the UTF-16 encoding of the text; every
    /// constructor of this module establishes it.
    pub open spec fn wf(&self) -> bool {
        self.wide() == utf16_encode(self@)
    }

    /// Creates an HSTRING holding `s` (`WindowsCreateString`).
    pub fn create(s: &str) -> (r: Self)
        ensures
            r@ == s@,
            r.wide() == utf16_encode(s@),
            r.wf(),
    {
        let data = encode_utf16(s);
        HString { data, utf8: s.to_owned() }
    }

    /// The empty HSTRING.
    pub fn empty() -> (r: Self)
        ensures
            r@ == Seq::<char>::empty(),
            r.wide() == Seq::<u16>::empty(),
            r.wf(),
    {
        let r = HString { data: Vec::new(), utf8: String::new() };
        assert(utf16_encode(Seq::<char>::empty()) =~= Seq::<u16>::empty());
        r
    }

    /// The text of the string.
    pub fn as_str(&self) -> (r: &str)
        ensures
            r@ == self@,
    {
        self.utf8.as_str()
    }

    /// The UTF-16 code units of the string.
    pub fn as_wide(&self) -> (r: &[u16])
        ensures
            r@ == self.wide(),
    {
        self.data.as_slice()
    }

    /// The length in UTF-16 code units, truncated to 32 bits.
    pub fn len(&self) -> (r: u32)
        ensures
            r == self.wide().len() as u32,
    {
        self.data.len() as u32
    }

    /// Whether the string has no code units.
    pub fn is_empty(&self) -> (r: bool)
        ensures
            r == (self.wide().len() == 0),
    {
        self.data.len() == 0
    }

    /// A second HSTRING with the same contents.
    pub fn duplicate(&self) -> (r: Self)
        ensures
            r@ == self@,
            r.wide() == self.wide(),
            self.wf() ==> r.wf(),
    {
        let mut data: Vec<u16> = Vec::new();
        let mut i: usize = 0;
        while i < self.data.len()
            invariant
                i <= self.data@.len(),
                data@ == self.data@.take(i as int),
            decreases self.data@.len() - i,
        {
            data.push(self.data[i]);
            assert(data@ =~= self.data@.take(i + 1));
            i = i + 1;
        }
        assert(data@ =~= self.data@);
        HString { data, utf8: self.utf8.clone() }
    }

    /// The text of the string, as its `Display` form shows it.
    pub fn to_string(&self) -> (r: String)
        ensures
            r@ == self@,
    {
        self.utf8.clone()
    }
}

/// An empty string is exactly one with no UTF-16 code units.
pub proof fn lemma_utf16_empty_iff(s: Seq<char>)
    ensures
        (utf16_encode(s).len() == 0) <==> (s.len() == 0),
    decreases s.len(),
{
    if s.len() > 0 {
        lemma_utf16_empty_iff(s.drop_last());
        let c = s.last();
        assert(utf16_of_char(c).len() >= 1);
    }
}

// ---------------------------------------------------------------------------
// GUID
// ---------------------------------------------------------------------------

/// A WinRT interface identifier.
#[derive(Debug, Clone, Copy, PartialEq, Eq, Hash)]
pub struct Guid {
    pub data1: u32,
    pub data2: u16,
    pub data3: u16,
    pub data4: [u8; 8],
}

/// The registry form of a GUID, `{XXXXXXXX-XXXX-XXXX-XXXX-XXXXXXXXXXXX}`,
/// with upper-case hexadecimal digits.
pub open spec fn guid_text(g: Guid) -> Seq<char> {
    seq!['{'] + hex_digits(g.data1 as nat, 8) + seq!['-'] + hex_digits(g.data2 as nat, 4) + seq![
        '-',
    ] + hex_digits(g.data3 as nat, 4) + seq!['-'] + hex_digits(g.data4[0] as nat, 2)
        + hex_digits(g.data4[1] as nat, 2) + seq!['-'] + hex_digits(g.data4[2] as nat, 2)
        + hex_digits(g.data4[3] as nat, 2) + hex_digits(g.data4[4] as nat, 2) + hex_digits(
        g.data4[5] as nat,
        2,
    ) + hex_digits(g.data4[6] as nat, 2) + hex_digits(g.data4[7] as nat, 2) + seq!['}']
}

impl Guid {
    /// A GUID from its four components.
    pub fn new(d1: u32, d2: u16, d3: u16, d4: [u8; 8]) -> (r: Self)
        ensures
            r.data1 == d1,
            r.data2 == d2,
            r.data3 == d3,
            r.data4 == d4,
    {
        Guid { data1: d1, data2: d2, data3: d3, data4: d4 }
    }

    /// The null GUID.
    pub fn zero() -> (r: Self)
        ensures
            r.data1 == 0,
            r.data2 == 0,
            r.data3 == 0,
            r.data4@ == seq![0u8, 0u8, 0u8, 0u8, 0u8, 0u8, 0u8, 0u8],
    {
        let r = Guid::new(0, 0, 0, [0, 0, 0, 0, 0, 0, 0, 0]);
        assert(r.data4@ =~= seq![0u8, 0u8, 0u8, 0u8, 0u8, 0u8, 0u8, 0u8]);
        r
    }

    /// The registry form of the GUID, as its `Display` form shows it.
    pub fn to_string(&self) -> (r: String)
        ensures
            r@ == guid_text(*self),
    {
        let mut out: Vec<char> = Vec::new();
        out.push('{');
        push_hex(&mut out, self.data1 as u64, 8);
        out.push('-');
        push_hex(&mut out, self.data2 as u64, 4);
        out.push('-');
        push_hex(&mut out, self.data3 as u64, 4);
        out.push('-');
        push_hex(&mut out, self.data4[0] as u64, 2);
        push_hex(&mut out, self.data4[1] as u64, 2);
        out.push('-');
        push_hex(&mut out, self.data4[2] as u64, 2);
        push_hex(&mut out, self.data4[3] as u64, 2);
        push_hex(&mut out, self.data4[4] as u64, 2);
        push_hex(&mut out, self.data4[5] as u64, 2);
        push_hex(&mut out, self.data4[6] as u64, 2);
        push_hex(&mut out, self.data4[7] as u64, 2);
        out.push('}');
        assert(out@ =~= guid_text(*self));
        string_of_chars(&out)
    }
}

/// The IID of `IUnknown`, {00000000-0000-0000-C000-000000000046}.
pub fn iid_iunknown() -> (r: Guid)
    ensures
        r == (Guid {
            data1: 0x00000000,
            data2: 0x0000,
            data3: 0x0000,
            data4: [0xC0, 0x00, 0x00, 0x00, 0x00, 0x00, 0x00, 0x46],
        }),
{
    Guid::new(0x00000000, 0x0000, 0x0000, [0xC0, 0x00, 0x00, 0x00, 0x00, 0x00, 0x00, 0x46])
}

/// The IID of `IInspectable`, {AF86E2E0-B12D-4C6A-9C5A-D7AA65101E90}.
pub fn iid_iinspectable() -> (r: Guid)
    ensures
        r == (Guid {
            data1: 0xAF86E2E0,
            data2: 0xB12D,
            data3: 0x4C6A,
            data4: [0x9C, 0x5A, 0xD7, 0xAA, 0x65, 0x10, 0x1E, 0x90],
        }),
{
    Guid::new(0xAF86E2E0, 0xB12D, 0x4C6A, [0x9C, 0x5A, 0xD7, 0xAA, 0x65, 0x10, 0x1E, 0x90])
}

/// The IID of `IActivationFactory`, {00000035-0000-0000-C000-000000000046}.
pub fn iid_iactivation_factory() -> (r: Guid)
    ensures
        r == (Guid {
            data1: 0x00000035,
            data2: 0x0000,
            data3: 0x0000,
            data4: [0xC0, 0x00, 0x00, 0x00, 0x00, 0x00, 0x00, 0x46],
        }),
{
    Guid::new(0x00000035, 0x0000, 0x0000, [0xC0, 0x00, 0x00, 0x00, 0x00, 0x00, 0x00, 0x46])
}

// ---------------------------------------------------------------------------
// Objects and values
// ---------------------------------------------------------------------------

/// A WinRT object instance.
#[derive(Debug, Clone)]
pub struct WinRtObject {
    /// Runtime class name (e.g. "Windows.Foundation.Uri").
    pub class_name: String,
    /// Object handle.
    pub handle: u64,
    /// Property store of the object.
    pub properties: BTreeMap<String, WinRtValue>,
}

/// A WinRT value, as stored in an object's properties.
///
/// Floating-point values are held as their IEEE 754 bit patterns
/// (`f32::to_bits`, `f64::to_bits`).
#[derive(Debug, Clone)]
pub enum WinRtValue {
    Null,
    Boolean(bool),
    Int32(i32),
    Int64(i64),
    UInt32(u32),
    UInt64(u64),
    /// Bit pattern of an `f32`.
    Single(u32),
    /// Bit pattern of an `f64`.
    Double(u64),
    String(String),
    /// 100-nanosecond intervals since January 1, 1601.
    DateTime(i64),
    /// 100-nanosecond intervals.
    TimeSpan(i64),
    Guid(Guid),
    /// Handle of another WinRT object.
    Object(u64),
}

/// Takes the next object handle from the counter.
fn alloc_handle(next_handle: &mut u64) -> (h: u64)
    requires
        *old(next_handle) < u64::MAX,
    ensures
        h == *old(next_handle),
        *final(next_handle) == *old(next_handle) + 1,
{
    let h = *next_handle;
    *next_handle = h + 1;
    h
}

/// The value stored under `key` in `map`, for modification (std's
/// `BTreeMap::get_mut`).
///
/// Trusted: std documents `get_mut` as returning a mutable reference to the
/// value for the key, or `None` when the key is absent, and does not panic;
/// writes through the reference change that value and nothing else in the map.
#[verifier::external_body]
fn btree_get_mut(map: &mut BTreeMap<u64, WinRtObject>, key: u64) -> (r: Option<&mut WinRtObject>)
    ensures
        match r {
            Some(v) => {
                &&& old(map)@.contains_key(key)
                &&& *v == old(map)@[key]
                &&& final(map)@ == old(map)@.insert(key, *final(v))
            },
            None => !old(map)@.contains_key(key) && final(map)@ == old(map)@,
        },
    no_unwind
{
    map.get_mut(&key)
}

/// A fresh object of class `name` with handle `h` and no properties.
pub open spec fn fresh_object(name: Seq<char>, h: u64, o: WinRtObject) -> bool {
    &&& o.class_name@ == name
    &&& o.handle == h
    &&& o.properties@ == Map::<String, WinRtValue>::empty()
}

// ---------------------------------------------------------------------------
// Activation factories
// ---------------------------------------------------------------------------

/// An activation factory: creates instances of one runtime class.
///
/// Object handles come from the counter `next_handle`, which the caller
/// owns; a factory that needs a handle takes the counter's current value
/// and advances it.
pub trait IActivationFactory: Send {
    /// The runtime class name this factory creates, where the factory
    /// states it; `None` (the default) states nothing.
    open spec fn spec_class_name(&self) -> Option<Seq<char>> {
        None
    }

    /// The runtime class name this factory creates.
    fn class_name(&self) -> (r: &str)
        ensures
            self.spec_class_name() matches Some(n) ==> r@ == n,
    ;

    /// What an activation by this factory does, from handle counter
    /// `old_next` to `new_next`, answering `r`, where the factory states it;
    /// `true` (the default) states nothing.
    open spec fn activation_spec(&self, old_next: u64, new_next: u64, r: Result<WinRtObject, i32>) -> bool {
        true
    }

    /// Creates a default instance of the class.
    fn activate_instance(&self, next_handle: &mut u64) -> (r: Result<WinRtObject, i32>)
        requires
            *old(next_handle) < u64::MAX,
        ensures
            self.activation_spec(*old(next_handle), *final(next_handle), r),
    ;

    /// Creates an instance from constructor arguments.
    fn create_instance(&self, args: &[WinRtValue], next_handle: &mut u64) -> Result<
        WinRtObject,
        i32,
    >
        requires
            *old(next_handle) < u64::MAX,
    ;
}

/// The factory registered by [`FactoryRegistry::register_default`]: it
/// creates property-less objects of its class.
struct DefaultFactory {
    name: String,
}

impl DefaultFactory {
    /// Creates a default instance; the handle is the counter's value.
    fn activate(&self, next_handle: &mut u64) -> (r: WinRtObject)
        requires
            *old(next_handle) < u64::MAX,
        ensures
            fresh_object(self.name@, *old(next_handle), r),
            *final(next_handle) == *old(next_handle) + 1,
    {
        let handle = alloc_handle(next_handle);
        WinRtObject { class_name: self.name.clone(), handle, properties: BTreeMap::new() }
    }
}

impl DefaultFactory {
    /// The name of the class this factory creates.
    pub closed spec fn name_of(&self) -> Seq<char> {
        self.name@
    }
}

impl IActivationFactory for DefaultFactory {
    /// The name of the class this factory was made for.
    closed spec fn spec_class_name(&self) -> Option<Seq<char>> {
        Some(self.name@)
    }

    /// A fresh property-less object of the class, under the counter's
    /// value, and the counter advanced by one.
    closed spec fn activation_spec(&self, old_next: u64, new_next: u64, r: Result<WinRtObject, i32>) -> bool {
        &&& r matches Ok(o) && fresh_object(self.name@, old_next, o)
        &&& new_next == old_next + 1
    }

    fn class_name(&self) -> (r: &str) {
        self.name.as_str()
    }

    /// A fresh property-less object of the class, under the counter's value.
    fn activate_instance(&self, next_handle: &mut u64) -> (r: Result<WinRtObject, i32>)
        ensures
            r matches Ok(o) && fresh_object(self.name_of(), *old(next_handle), o),
            *final(next_handle) == *old(next_handle) + 1,
    {
        Ok(self.activate(next_handle))
    }

    /// The arguments are ignored: the same as [`Self::activate_instance`].
    fn create_instance(&self, args: &[WinRtValue], next_handle: &mut u64) -> (r: Result<
        WinRtObject,
        i32,
    >)
        ensures
            r matches Ok(o) && fresh_object(self.name_of(), *old(next_handle), o),
            *final(next_handle) == *old(next_handle) + 1,
    {
        Ok(self.activate(next_handle))
    }
}

/// How a registered class is created.
enum FactoryKind {
    /// A [`DefaultFactory`] for the class.
    Default(DefaultFactory),
    /// A factory supplied through [`FactoryRegistry::register_factory`].
    Custom(Box<dyn IActivationFactory>),
}

/// One registered class.
struct FactoryEntry {
    class_name: String,
    kind: FactoryKind,
}

impl FactoryEntry {
    /// What the contracts see of the entry.
    spec fn info(self) -> FactoryInfo {
        FactoryInfo { name: self.class_name@, is_default: self.kind is Default }
    }

    /// A default factory creates objects of the class it is registered for.
    spec fn wf(self) -> bool {
        match self.kind {
            FactoryKind::Default(f) => f.name@ == self.class_name@,
            FactoryKind::Custom(_) => true,
        }
    }

    fn custom(class_name: String, factory: Box<dyn IActivationFactory>) -> (e: Self)
        ensures
            e.class_name == class_name,
            e.kind is Custom,
    {
        FactoryEntry { class_name, kind: FactoryKind::Custom(factory) }
    }

    fn default_for(class_name: &str) -> (e: Self)
        ensures
            e.class_name@ == class_name@,
            e.kind matches FactoryKind::Default(f) && f.name@ == class_name@,
    {
        FactoryEntry {
            class_name: class_name.to_owned(),
            kind: FactoryKind::Default(DefaultFactory { name: class_name.to_owned() }),
        }
    }
}

/// A registered class as the contracts see it: its name, and whether its
/// factory is the built-in default one.
pub struct FactoryInfo {
    pub name: Seq<char>,
    pub is_default: bool,
}

/// Registering a default factory for `name` in `fs`: an entry already
/// present for the name is replaced in place, otherwise one is appended.
pub open spec fn with_default(fs: Seq<FactoryInfo>, name: Seq<char>) -> Seq<FactoryInfo> {
    with_factory(fs, name, true)
}

/// Registering a factory for `name` in `fs`.
pub open spec fn with_factory(fs: Seq<FactoryInfo>, name: Seq<char>, is_default: bool) -> Seq<
    FactoryInfo,
> {
    let e = FactoryInfo { name, is_default };
    match first_index(names_of(fs), name) {
        Some(i) => fs.update(i, e),
        None => fs.push(e),
    }
}

/// The names of the registered classes, in registration order.
pub open spec fn names_of(fs: Seq<FactoryInfo>) -> Seq<Seq<char>> {
    fs.map_values(|e: FactoryInfo| e.name)
}

/// Whether the factory registered for `name` in `fs` is a default one.
pub open spec fn default_registered(fs: Seq<FactoryInfo>, name: Seq<char>) -> bool {
    match first_index(names_of(fs), name) {
        Some(i) => fs[i].is_default,
        None => false,
    }
}

/// Whether no name occurs twice.
pub open spec fn names_distinct(fs: Seq<FactoryInfo>) -> bool {
    forall|i: int, j: int| 0 <= i < j < fs.len() ==> fs[i].name != fs[j].name
}

/// What an activation of `class_name` does, from registry `old_reg` and
/// handle counter `old_next` to `new_reg` and `new_next`, answering `r`:
/// the factories stay; without a factory for the class the answer is
/// `E_CLASSNOTREGISTERED` and nothing changes; a default factory takes the
/// counter's value as handle and adds a fresh property-less object of the
/// class under it; any new handle names the object added under it, and an
/// error leaves the objects as they were.
pub open spec fn activation_done(
    old_reg: FactoryRegistry,
    new_reg: FactoryRegistry,
    old_next: u64,
    new_next: u64,
    class_name: Seq<char>,
    r: Result<u64, i32>,
) -> bool {
    &&& new_reg.factories() == old_reg.factories()
    &&& !old_reg.has_factory(class_name) ==> {
        &&& r == Err::<u64, i32>(E_CLASSNOTREGISTERED)
        &&& new_reg.objects() == old_reg.objects()
        &&& new_next == old_next
    }
    &&& old_reg.has_default_factory(class_name) ==> {
        &&& r == Ok::<u64, i32>(old_next)
        &&& new_next == old_next + 1
        &&& new_reg.objects().contains_key(old_next)
        &&& fresh_object(class_name, old_next, new_reg.objects()[old_next])
        &&& new_reg.objects() == old_reg.objects().insert(old_next, new_reg.objects()[old_next])
    }
    &&& r matches Ok(h) ==> {
        &&& new_reg.objects().contains_key(h)
        &&& new_reg.objects()[h].handle == h
        &&& new_reg.objects() == old_reg.objects().insert(h, new_reg.objects()[h])
    }
    &&& r is Err ==> new_reg.objects() == old_reg.objects()
}

/// What recording a factory's answer `res` does to the live objects, from
/// `old_objects` to `new_objects`, answering `r`: an object joins them under
/// its handle, which is the answer; an error is passed on.
pub open spec fn recorded(
    old_objects: Map<u64, WinRtObject>,
    new_objects: Map<u64, WinRtObject>,
    res: Result<WinRtObject, i32>,
    r: Result<u64, i32>,
) -> bool {
    match res {
        Ok(o) => r == Ok::<u64, i32>(o.handle) && new_objects == old_objects.insert(o.handle, o),
        Err(e) => r == Err::<u64, i32>(e) && new_objects == old_objects,
    }
}

/// Whether an activation from `old_reg` and counter `old_next` to `new_reg`
/// and `new_next`, answering `r`, is the work of one call of a supplied
/// factory: the factory, called with the counter, left it at `new_next` and
/// answered `res`, and `res` was recorded as it was.
pub open spec fn done_by_factory(
    old_reg: FactoryRegistry,
    new_reg: FactoryRegistry,
    old_next: u64,
    new_next: u64,
    r: Result<u64, i32>,
) -> bool {
    exists|f: Box<dyn IActivationFactory>, res: Result<WinRtObject, i32>|
        #[trigger] f.activation_spec(old_next, new_next, res) && recorded(
            old_reg.objects(),
            new_reg.objects(),
            res,
            r,
        )
}

/// Registry of activation factories and of the live objects they created.
pub struct FactoryRegistry {
    /// One entry per registered class name, in registration order.
    factories: Vec<FactoryEntry>,
    /// Live objects by handle.
    objects: BTreeMap<u64, WinRtObject>,
}

impl FactoryRegistry {
    /// The registered classes, in registration order.
    pub closed spec fn factories(&self) -> Seq<FactoryInfo> {
        self.factories@.map_values(|e: FactoryEntry| e.info())
    }

    /// The live objects by handle.
    pub closed spec fn objects(&self) -> Map<u64, WinRtObject> {
        self.objects@
    }

    /// Whether a factory is registered for `name`.
    pub open spec fn has_factory(&self, name: Seq<char>) -> bool {
        first_index(names_of(self.factories()), name) is Some
    }

    /// Whether the factory registered for `name` is a default one.
    pub open spec fn has_default_factory(&self, name: Seq<char>) -> bool {
        default_registered(self.factories(), name)
    }

    #[verifier::type_invariant]
    closed spec fn inv(self) -> bool {
        &&& names_distinct(self.factories())
        &&& forall|i: int|
            0 <= i < self.factories@.len() ==> (#[trigger] self.factories@[i]).wf()
    }
}

impl FactoryRegistry {
    /// An empty registry.
    pub fn new() -> (r: Self)
        ensures
            r.factories() == Seq::<FactoryInfo>::empty(),
            r.objects() == Map::<u64, WinRtObject>::empty(),
    {
        let r = FactoryRegistry { factories: Vec::new(), objects: BTreeMap::new() };
        assert(r.factories() =~= Seq::<FactoryInfo>::empty());
        r
    }

    /// Position of the entry registered for `class_name`.
    fn find(&self, class_name: &str) -> (r: Option<usize>)
        ensures
            r matches Some(i) ==> first_index(names_of(self.factories()), class_name@) == Some(
                i as int,
            ),
            r is None ==> first_index(names_of(self.factories()), class_name@) is None,
            r matches Some(i) ==> i < self.factories@.len(),
    {
        let ghost names = names_of(self.factories());
        let mut i: usize = 0;
        while i < self.factories.len()
            invariant
                i <= self.factories@.len(),
                names == names_of(self.factories()),
                names.len() == self.factories@.len(),
                first_from(names, class_name@, 0) == first_from(names, class_name@, i as int),
            decreases self.factories@.len() - i,
        {
            assert(names[i as int] == self.factories@[i as int].class_name@);
            if str_eq(self.factories[i].class_name.as_str(), class_name) {
                return Some(i);
            }
            i = i + 1;
        }
        None
    }

    /// Stores `entry` under its class name: in place of the entry registered
    /// for that name, or at the end when there is none.
    fn store(&mut self, entry: FactoryEntry)
        requires
            entry.wf(),
        ensures
            final(self).factories() == with_factory(
                old(self).factories(),
                entry.class_name@,
                entry.kind is Default,
            ),
            final(self).objects() == old(self).objects(),
    {
        proof {
            use_type_invariant(&*self);
            lemma_first_index(names_of(self.factories()), entry.class_name@);
        }
        let ghost info = entry.info();
        let ghost old_fs = self.factories();
        let ghost old_entries = self.factories@;
        let found = self.find(entry.class_name.as_str());
        let mut fs: Vec<FactoryEntry> = Vec::new();
        std::mem::swap(&mut fs, &mut self.factories);
        match found {
            Some(i) => {
                fs.set(i, entry);
                let ghost nf = old_fs.update(i as int, info);
                assert(fs@.map_values(|e: FactoryEntry| e.info()) =~= nf);
                assert(names_of(old_fs)[i as int] == info.name);
                assert forall|a: int, b: int| 0 <= a < b < nf.len() implies nf[a].name
                    != nf[b].name by {
                    assert(old_fs[a].name != old_fs[b].name);
                    assert(names_of(old_fs)[a] == old_fs[a].name);
                    assert(names_of(old_fs)[b] == old_fs[b].name);
                }
            },
            None => {
                fs.push(entry);
                let ghost nf = old_fs.push(info);
                assert(fs@.map_values(|e: FactoryEntry| e.info()) =~= nf);
                assert forall|a: int, b: int| 0 <= a < b < nf.len() implies nf[a].name
                    != nf[b].name by {
                    if b == old_fs.len() {
                        assert(names_of(old_fs)[a] == old_fs[a].name);
                    } else {
                        assert(old_fs[a].name != old_fs[b].name);
                    }
                }
            },
        }
        assert(forall|j: int| 0 <= j < fs@.len() ==> (#[trigger] fs@[j]).wf()) by {
            assert forall|j: int| 0 <= j < fs@.len() implies (#[trigger] fs@[j]).wf() by {
                if j < old_entries.len() && fs@[j] != entry {
                    assert(fs@[j] == old_entries[j]);
                }
            }
        }
        self.factories = fs;
        match found {
            Some(i) => {
                assert(self.factories() =~= old_fs.update(i as int, info));
            },
            None => {
                assert(self.factories() =~= old_fs.push(info));
            },
        }
    }

    /// Registers `factory` for `class_name`, replacing any factory already
    /// registered for that name.
    pub fn register_factory(&mut self, class_name: String, factory: Box<dyn IActivationFactory>)
        ensures
            final(self).factories() == with_factory(old(self).factories(), class_name@, false),
            final(self).objects() == old(self).objects(),
    {
        let ghost name = class_name@;
        let entry = FactoryEntry::custom(class_name, factory);
        self.store(entry);
    }

    /// Registers a default factory for `class_name`, replacing any factory
    /// already registered for that name.
    pub fn register_default(&mut self, class_name: &str)
        ensures
            final(self).factories() == with_default(old(self).factories(), class_name@),
            final(self).objects() == old(self).objects(),
    {
        let entry = FactoryEntry::default_for(class_name);
        self.store(entry);
    }

    /// Records what a factory returned: an object joins the live objects
    /// under its handle; an error is passed on.
    pub fn record_activation(&mut self, result: Result<WinRtObject, i32>) -> (r: Result<u64, i32>)
        ensures
            final(self).factories() == old(self).factories(),
            match result {
                Ok(o) => r == Ok::<u64, i32>(o.handle) && final(self).objects() == old(
                    self,
                ).objects().insert(o.handle, o),
                Err(e) => r == Err::<u64, i32>(e) && final(self).objects() == old(self).objects(),
            },
    {
        proof {
            use_type_invariant(&*self);
        }
        match result {
            Ok(obj) => {
                let handle = obj.handle;
                let mut objects: BTreeMap<u64, WinRtObject> = BTreeMap::new();
                std::mem::swap(&mut objects, &mut self.objects);
                objects.insert(handle, obj);
                self.objects = objects;
                Ok(handle)
            },
            Err(e) => Err(e),
        }
    }

    /// `RoActivateInstance`: creates an instance of `class_name` with the
    /// factory registered for it and keeps it among the live objects.
    pub fn activate_instance(&mut self, class_name: &str, next_handle: &mut u64) -> (r: Result<
        u64,
        i32,
    >)
        requires
            old(self).has_factory(class_name@) ==> *old(next_handle) < u64::MAX,
        ensures
            activation_done(
                *old(self),
                *final(self),
                *old(next_handle),
                *final(next_handle),
                class_name@,
                r,
            ),
            old(self).has_factory(class_name@) && !old(self).has_default_factory(class_name@)
                ==> done_by_factory(
                *old(self),
                *final(self),
                *old(next_handle),
                *final(next_handle),
                r,
            ),
    {
        proof {
            use_type_invariant(&*self);
            lemma_first_index(names_of(self.factories()), class_name@);
        }
        match self.find(class_name) {
            None => Err(E_CLASSNOTREGISTERED),
            Some(i) => {
                assert(self.factories@[i as int].wf());
                let ghost old_next = *next_handle;
                let ghost old_reg = *self;
                let result = match &self.factories[i].kind {
                    FactoryKind::Default(f) => {
                        Ok(f.activate(next_handle))
                    },
                    FactoryKind::Custom(b) => {
                        let res = b.activate_instance(next_handle);
                        assert((*b).activation_spec(old_next, *next_handle, res));
                        res
                    },
                };
                let r = self.record_activation(result);
                assert(recorded(old_reg.objects(), self.objects(), result, r));
                r
            },
        }
    }

    /// `RoGetActivationFactory`: the factory registered for `class_name`.
    pub fn get_factory(&self, class_name: &str) -> (r: Result<&dyn IActivationFactory, i32>)
        ensures
            r is Ok <==> self.has_factory(class_name@),
            r matches Err(e) ==> e == E_CLASSNOTREGISTERED,
            self.has_default_factory(class_name@) ==> (r matches Ok(f) && f.spec_class_name()
                == Some(class_name@)),
    {
        proof {
            use_type_invariant(self);
        }
        match self.find(class_name) {
            Some(i) => {
                proof {
                    lemma_first_index(names_of(self.factories()), class_name@);
                    assert(names_of(self.factories())[i as int] == self.factories@[i as int].class_name@);
                    assert(self.factories()[i as int].is_default == (self.factories@[i as int].kind is Default));
                }
                assert(self.factories@[i as int].wf());
                match &self.factories[i].kind {
                    FactoryKind::Default(f) => Ok(f),
                    FactoryKind::Custom(b) => Ok(&**b),
                }
            },
            None => Err(E_CLASSNOTREGISTERED),
        }
    }

    /// The live object with handle `handle`.
    pub fn get_object(&self, handle: u64) -> (r: Option<&WinRtObject>)
        ensures
            match r {
                Some(o) => self.objects().contains_key(handle) && *o == self.objects()[handle],
                None => !self.objects().contains_key(handle),
            },
    {
        self.objects.get(&handle)
    }

    /// The live object with handle `handle`, for modification.
    pub fn get_object_mut(&mut self, handle: u64) -> (r: Option<&mut WinRtObject>)
        ensures
            final(self).factories() == old(self).factories(),
            match r {
                Some(o) => {
                    &&& old(self).objects().contains_key(handle)
                    &&& *o == old(self).objects()[handle]
                    &&& final(self).objects() == old(self).objects().insert(handle, *final(o))
                },
                None => !old(self).objects().contains_key(handle) && final(self).objects() == old(
                    self,
                ).objects(),
            },
    {
        proof {
            use_type_invariant(&*self);
        }
        btree_get_mut(&mut self.objects, handle)
    }

    /// Releases the object with handle `handle`; whether it was live.
    pub fn release_object(&mut self, handle: u64) -> (r: bool)
        ensures
            r == old(self).objects().contains_key(handle),
            final(self).objects() == old(self).objects().remove(handle),
            final(self).factories() == old(self).factories(),
    {
        proof {
            use_type_invariant(&*self);
        }
        let mut objects: BTreeMap<u64, WinRtObject> = BTreeMap::new();
        std::mem::swap(&mut objects, &mut self.objects);
        let removed = objects.remove(&handle);
        self.objects = objects;
        removed.is_some()
    }

    /// The number of registered factories.
    pub fn factory_count(&self) -> (r: usize)
        ensures
            r == self.factories().len(),
    {
        self.factories.len()
    }

    /// The number of live objects.
    pub fn object_count(&self) -> (r: usize)
        ensures
            r == self.objects().len(),
    {
        self.objects.len()
    }
}

// ---------------------------------------------------------------------------
// Process-wide operations
// ---------------------------------------------------------------------------

/// The registry state after the built-in classes get default factories,
/// in this order: `Windows.Foundation.Uri`, `Windows.Foundation.PropertyValue`,
/// `Windows.Storage.StorageFile`, `Windows.Storage.StorageFolder`,
/// `Windows.Storage.ApplicationData`, `Windows.UI.Colors`,
/// `Windows.Networking.HostName`.
pub open spec fn with_builtin_factories(fs: Seq<FactoryInfo>) -> Seq<FactoryInfo> {
    with_default(
        with_default(
            with_default(
                with_default(
                    with_default(
                        with_default(
                            with_default(fs, "Windows.Foundation.Uri"@),
                            "Windows.Foundation.PropertyValue"@,
                        ),
                        "Windows.Storage.StorageFile"@,
                    ),
                    "Windows.Storage.StorageFolder"@,
                ),
                "Windows.Storage.ApplicationData"@,
            ),
            "Windows.UI.Colors"@,
        ),
        "Windows.Networking.HostName"@,
    )
}

/// Sets up the registry slot: an empty registry when there is none yet;
/// an existing registry is kept.
pub fn init(registry: &mut Option<FactoryRegistry>)
    ensures
        *old(registry) is None ==> (*final(registry) matches Some(r) && r.factories()
            == Seq::<FactoryInfo>::empty() && r.objects() == Map::<u64, WinRtObject>::empty()),
        *old(registry) is Some ==> *final(registry) == *old(registry),
{
    if registry.is_none() {
        *registry = Some(FactoryRegistry::new());
    }
}

/// The built-in classes, in order of registration.
pub open spec fn builtin_class_names() -> Seq<Seq<char>> {
    seq![
        "Windows.Foundation.Uri"@,
        "Windows.Foundation.PropertyValue"@,
        "Windows.Storage.StorageFile"@,
        "Windows.Storage.StorageFolder"@,
        "Windows.Storage.ApplicationData"@,
        "Windows.UI.Colors"@,
        "Windows.Networking.HostName"@,
    ]
}

/// Registers default factories for the built-in classes.
pub fn register_builtin_factories(registry: &mut FactoryRegistry)
    ensures
        final(registry).factories() == with_builtin_factories(old(registry).factories()),
        final(registry).objects() == old(registry).objects(),
        forall|k: int|
            0 <= k < builtin_class_names().len()
                ==> #[trigger] final(registry).has_default_factory(builtin_class_names()[k]),
{
    proof {
        lemma_builtin_factories_default(registry.factories());
    }
    // Windows.Foundation
    registry.register_default("Windows.Foundation.Uri");
    registry.register_default("Windows.Foundation.PropertyValue");
    // Windows.Storage
    registry.register_default("Windows.Storage.StorageFile");
    registry.register_default("Windows.Storage.StorageFolder");
    registry.register_default("Windows.Storage.ApplicationData");
    // Windows.UI
    registry.register_default("Windows.UI.Colors");
    // Windows.Networking
    registry.register_default("Windows.Networking.HostName");
}

/// `RoActivateInstance`: creates an instance of `class_name`.
pub fn ro_activate_instance(registry: &mut FactoryRegistry, next_handle: &mut u64, class_name: &str) -> (r: Result<u64, i32>)
    requires
        old(registry).has_factory(class_name@) ==> *old(next_handle) < u64::MAX,
    ensures
        activation_done(
            *old(registry),
            *final(registry),
            *old(next_handle),
            *final(next_handle),
            class_name@,
            r,
        ),
{
    registry.activate_instance(class_name, next_handle)
}

/// Whether a factory is registered for `class_name`.
pub fn ro_has_factory(registry: &FactoryRegistry, class_name: &str) -> (r: bool)
    ensures
        r == registry.has_factory(class_name@),
{
    registry.get_factory(class_name).is_ok()
}

/// `WindowsCreateString`: an HSTRING holding `s`.
pub fn windows_create_string(s: &str) -> (r: HString)
    ensures
        r@ == s@,
        r.wide() == utf16_encode(s@),
        r.wf(),
{
    HString::create(s)
}

/// `WindowsDeleteString`: releases an HSTRING (its memory is freed when it
/// is dropped here).
pub fn windows_delete_string(hstring: HString) {
}

/// `WindowsGetStringRawBuffer`: the UTF-16 code units of an HSTRING.
pub fn windows_get_string_raw_buffer(hstring: &HString) -> (r: &[u16])
    ensures
        r@ == hstring.wide(),
{
    hstring.as_wide()
}

// ---------------------------------------------------------------------------
// Laws
// ---------------------------------------------------------------------------

/// An HSTRING built by this module has no code units exactly when it has
/// no characters.
pub proof fn lemma_hstring_empty_iff(h: HString)
    requires
        h.wf(),
    ensures
        (h.wide().len() == 0) <==> (h@.len() == 0),
{
    lemma_utf16_empty_iff(h@);
}

/// Every character takes one or two UTF-16 code units.
pub proof fn lemma_utf16_len_bounds(s: Seq<char>)
    ensures
        s.len() <= utf16_encode(s).len() <= 2 * s.len(),
    decreases s.len(),
{
    if s.len() > 0 {
        lemma_utf16_len_bounds(s.drop_last());
    }
}

/// Registering a factory for `name`: afterwards a factory is registered for
/// it, default exactly when the new one is; every other name keeps its
/// factory; the count grows by one exactly when the name was new; and no
/// name occurs twice when none did before.
pub proof fn lemma_with_factory(fs: Seq<FactoryInfo>, name: Seq<char>, is_default: bool, other: Seq<char>)
    ensures
        ({
            let nf = with_factory(fs, name, is_default);
            &&& first_index(names_of(nf), name) matches Some(i) && nf[i].is_default == is_default
            &&& other != name ==> first_index(names_of(nf), other) == first_index(names_of(fs), other)
            &&& other != name ==> (first_index(names_of(fs), other) matches Some(j) ==> nf[j] == fs[j])
            &&& nf.len() == fs.len() + (if first_index(names_of(fs), name) is Some { 0int } else { 1int })
            &&& names_distinct(fs) ==> names_distinct(nf)
        }),
{
    let names = names_of(fs);
    let nf = with_factory(fs, name, is_default);
    let e = FactoryInfo { name, is_default };
    lemma_first_index(names, name);
    lemma_first_index(names, other);
    match first_index(names, name) {
        Some(i) => {
            assert(names_of(nf) =~= names);
            match first_index(names, other) {
                Some(j) => {
                    if other != name {
                        assert(j != i);
                    }
                },
                None => {},
            }
            if names_distinct(fs) {
                assert forall|a: int, b: int| 0 <= a < b < nf.len() implies nf[a].name
                    != nf[b].name by {
                    assert(names[a] == fs[a].name);
                    assert(names[b] == fs[b].name);
                }
            }
        },
        None => {
            assert(names_of(nf) =~= names.push(name));
            crate::text::lemma_first_index_push(names, name, name);
            crate::text::lemma_first_index_push(names, name, other);
            if names_distinct(fs) {
                assert forall|a: int, b: int| 0 <= a < b < nf.len() implies nf[a].name
                    != nf[b].name by {
                    if b == fs.len() {
                        assert(names[a] == fs[a].name);
                    }
                }
            }
        },
    }
}

/// Activating an object and then releasing its handle leaves the live
/// objects as before, except that no object has that handle any more.
pub proof fn lemma_activate_then_release(
    old_reg: FactoryRegistry,
    new_reg: FactoryRegistry,
    old_next: u64,
    new_next: u64,
    class_name: Seq<char>,
    h: u64,
)
    requires
        activation_done(old_reg, new_reg, old_next, new_next, class_name, Ok(h)),
    ensures
        new_reg.objects().contains_key(h),
        new_reg.objects().remove(h) == old_reg.objects().remove(h),
{
    assert(new_reg.objects().remove(h) =~= old_reg.objects().remove(h));
}

/// Whether `next` can serve as the next object handle beside the live
/// objects `objects`: it is not zero, and every live handle is below it.
pub open spec fn handles_below(objects: Map<u64, WinRtObject>, next: u64) -> bool {
    &&& next >= 1
    &&& forall|h: u64| objects.contains_key(h) ==> h < next
}

/// A registry holds finitely many live objects.
pub proof fn lemma_objects_finite(reg: FactoryRegistry)
    ensures
        reg.objects().dom().finite(),
{
    broadcast use vstd::std_specs::btree::axiom_btree_map_view_finite_dom;

}

/// Handles stay fresh. Activating a class with a default factory, from a
/// counter above every live handle, gives a handle that is not zero and
/// names no object that was live; one more object is live, of that class;
/// and the counter stays above every live handle. An activation without a
/// factory changes nothing.
pub proof fn lemma_activation_fresh_handle(
    old_reg: FactoryRegistry,
    new_reg: FactoryRegistry,
    old_next: u64,
    new_next: u64,
    class_name: Seq<char>,
    r: Result<u64, i32>,
)
    requires
        activation_done(old_reg, new_reg, old_next, new_next, class_name, r),
        handles_below(old_reg.objects(), old_next),
        old_reg.has_default_factory(class_name) || !old_reg.has_factory(class_name),
    ensures
        handles_below(new_reg.objects(), new_next),
        old_reg.has_default_factory(class_name) ==> (r matches Ok(h) && h != 0
            && !old_reg.objects().contains_key(h) && new_reg.objects()[h].class_name@ == class_name
            && new_reg.objects().len() == old_reg.objects().len() + 1),
{
    lemma_objects_finite(old_reg);
    if old_reg.has_default_factory(class_name) {
        let h = old_next;
        assert(!old_reg.objects().contains_key(h));
        assert(new_reg.objects().dom() =~= old_reg.objects().dom().insert(h));
    }
}

/// Whether an answer `res` was made the way the default factories make
/// theirs: any object made carries the counter's value `old_next` as its
/// handle, and the counter `new_next` is advanced past it.
pub open spec fn takes_handle_from_counter(
    old_next: u64,
    new_next: u64,
    res: Result<WinRtObject, i32>,
) -> bool {
    &&& new_next == old_next + 1
    &&& res matches Ok(o) ==> o.handle == old_next
}

/// Activation through a supplied factory that takes its handles from the
/// counter, from a counter above every live handle: the counter is where
/// the factory left it, one past the old value; a handle answered is that
/// old value, so it is not zero and names no object that was live, and one
/// more object is live; an error leaves the objects as they were; and the
/// counter stays above every live handle.
pub proof fn lemma_counter_factory_activation(
    old_reg: FactoryRegistry,
    new_reg: FactoryRegistry,
    old_next: u64,
    new_next: u64,
    r: Result<u64, i32>,
)
    requires
        done_by_factory(old_reg, new_reg, old_next, new_next, r),
        forall|f: Box<dyn IActivationFactory>, o: u64, n: u64, res: Result<WinRtObject, i32>|
            #[trigger] f.activation_spec(o, n, res) ==> takes_handle_from_counter(o, n, res),
        handles_below(old_reg.objects(), old_next),
    ensures
        new_next == old_next + 1,
        r matches Ok(h) ==> h == old_next && h != 0 && !old_reg.objects().contains_key(h)
            && new_reg.objects().contains_key(h) && new_reg.objects().len()
            == old_reg.objects().len() + 1,
        r is Err ==> new_reg.objects() == old_reg.objects(),
        handles_below(new_reg.objects(), new_next),
{
    lemma_objects_finite(old_reg);
    let (f, res) = choose|f: Box<dyn IActivationFactory>, res: Result<WinRtObject, i32>|
        #[trigger] f.activation_spec(old_next, new_next, res) && recorded(
            old_reg.objects(),
            new_reg.objects(),
            res,
            r,
        );
    assert(takes_handle_from_counter(old_next, new_next, res));
    if let Ok(o) = res {
        assert(new_reg.objects().dom() =~= old_reg.objects().dom().insert(old_next));
    }
}

/// Two successive activations through supplied factories that take their
/// handles from the counter, starting from a counter above every live
/// handle, that both succeed give two different handles, and two more
/// objects are live, both of them.
pub proof fn lemma_two_counter_factory_activations(
    reg0: FactoryRegistry,
    reg1: FactoryRegistry,
    reg2: FactoryRegistry,
    next0: u64,
    next1: u64,
    next2: u64,
    h1: u64,
    h2: u64,
)
    requires
        done_by_factory(reg0, reg1, next0, next1, Ok(h1)),
        done_by_factory(reg1, reg2, next1, next2, Ok(h2)),
        forall|f: Box<dyn IActivationFactory>, o: u64, n: u64, res: Result<WinRtObject, i32>|
            #[trigger] f.activation_spec(o, n, res) ==> takes_handle_from_counter(o, n, res),
        handles_below(reg0.objects(), next0),
    ensures
        h1 != h2,
        reg2.objects().contains_key(h1) && reg2.objects().contains_key(h2),
        reg2.objects().len() == reg0.objects().len() + 2,
        next2 == next0 + 2,
{
    lemma_counter_factory_activation(reg0, reg1, next0, next1, Ok(h1));
    lemma_counter_factory_activation(reg1, reg2, next1, next2, Ok(h2));
}

/// Releasing an object keeps the counter above every live handle.
pub proof fn lemma_release_keeps_handles_below(objects: Map<u64, WinRtObject>, next: u64, h: u64)
    requires
        handles_below(objects, next),
    ensures
        handles_below(objects.remove(h), next),
{
}

/// The built-in class names differ from one another.
pub proof fn lemma_builtin_class_names_distinct()
    ensures
        forall|i: int, j: int|
            0 <= i < j < builtin_class_names().len() ==> builtin_class_names()[i]
                != builtin_class_names()[j],
{
    reveal_strlit("Windows.Foundation.Uri");
    reveal_strlit("Windows.Foundation.PropertyValue");
    reveal_strlit("Windows.Storage.StorageFile");
    reveal_strlit("Windows.Storage.StorageFolder");
    reveal_strlit("Windows.Storage.ApplicationData");
    reveal_strlit("Windows.UI.Colors");
    reveal_strlit("Windows.Networking.HostName");
    let n0 = "Windows.Foundation.Uri"@;
    let n1 = "Windows.Foundation.PropertyValue"@;
    let n2 = "Windows.Storage.StorageFile"@;
    let n3 = "Windows.Storage.StorageFolder"@;
    let n4 = "Windows.Storage.ApplicationData"@;
    let n5 = "Windows.UI.Colors"@;
    let n6 = "Windows.Networking.HostName"@;
    // The names differ: by length, or at the first character after "Windows.".
    assert(n0 != n1 && n0 != n2 && n0 != n3 && n0 != n4 && n0 != n5 && n0 != n6) by {
        assert(n0.len() != n1.len());
        assert(n0[8] != n2[8] && n0[8] != n3[8] && n0[8] != n4[8] && n0[8] != n5[8] && n0[8]
            != n6[8]);
    }
    assert(n1 != n2 && n1 != n3 && n1 != n4 && n1 != n5 && n1 != n6) by {
        assert(n1[8] != n2[8] && n1[8] != n3[8] && n1[8] != n4[8] && n1[8] != n5[8] && n1[8]
            != n6[8]);
    }
    assert(n2 != n3 && n2 != n4 && n2 != n5 && n2 != n6) by {
        assert(n2.len() != n3.len());
        assert(n2[16] != n4[16]);
        assert(n2[8] != n5[8] && n2[8] != n6[8]);
    }
    assert(n3 != n4 && n3 != n5 && n3 != n6) by {
        assert(n3[16] != n4[16]);
        assert(n3[8] != n5[8] && n3[8] != n6[8]);
    }
    assert(n4 != n5 && n4 != n6) by {
        assert(n4[8] != n5[8] && n4[8] != n6[8]);
    }
    assert(n5 != n6) by {
        assert(n5[8] != n6[8]);
    }
    assert(builtin_class_names() =~= seq![n0, n1, n2, n3, n4, n5, n6]);
}

/// Registering a factory for `name` makes the factory registered for it a
/// default one exactly when the new one is, and keeps whether the factory
/// of every other name is.
pub proof fn lemma_default_registered_with(
    fs: Seq<FactoryInfo>,
    name: Seq<char>,
    is_default: bool,
    other: Seq<char>,
)
    ensures
        default_registered(with_factory(fs, name, is_default), name) == is_default,
        other != name ==> default_registered(with_factory(fs, name, is_default), other)
            == default_registered(fs, other),
{
    lemma_with_factory(fs, name, is_default, name);
    lemma_with_factory(fs, name, is_default, other);
}

/// After the built-in factories are registered, whatever was registered
/// before, each built-in class has a default factory.
pub proof fn lemma_builtin_factories_default(fs: Seq<FactoryInfo>)
    ensures
        forall|k: int|
            0 <= k < builtin_class_names().len() ==> #[trigger] default_registered(
                with_builtin_factories(fs),
                builtin_class_names()[k],
            ),
{
    lemma_builtin_class_names_distinct();
    let n = builtin_class_names();
    reveal_strlit("Windows.Foundation.Uri");
    reveal_strlit("Windows.Foundation.PropertyValue");
    reveal_strlit("Windows.Storage.StorageFile");
    reveal_strlit("Windows.Storage.StorageFolder");
    reveal_strlit("Windows.Storage.ApplicationData");
    reveal_strlit("Windows.UI.Colors");
    reveal_strlit("Windows.Networking.HostName");
    let f0 = with_default(fs, n[0]);
    let f1 = with_default(f0, n[1]);
    let f2 = with_default(f1, n[2]);
    let f3 = with_default(f2, n[3]);
    let f4 = with_default(f3, n[4]);
    let f5 = with_default(f4, n[5]);
    let f6 = with_default(f5, n[6]);
    assert(f6 == with_builtin_factories(fs));
    lemma_default_registered_with(fs, n[0], true, n[0]);
    lemma_default_registered_with(f0, n[1], true, n[0]);
    lemma_default_registered_with(f0, n[1], true, n[1]);
    lemma_default_registered_with(f1, n[2], true, n[0]);
    lemma_default_registered_with(f1, n[2], true, n[1]);
    lemma_default_registered_with(f1, n[2], true, n[2]);
    lemma_default_registered_with(f2, n[3], true, n[0]);
    lemma_default_registered_with(f2, n[3], true, n[1]);
    lemma_default_registered_with(f2, n[3], true, n[2]);
    lemma_default_registered_with(f2, n[3], true, n[3]);
    lemma_default_registered_with(f3, n[4], true, n[0]);
    lemma_default_registered_with(f3, n[4], true, n[1]);
    lemma_default_registered_with(f3, n[4], true, n[2]);
    lemma_default_registered_with(f3, n[4], true, n[3]);
    lemma_default_registered_with(f3, n[4], true, n[4]);
    lemma_default_registered_with(f4, n[5], true, n[0]);
    lemma_default_registered_with(f4, n[5], true, n[1]);
    lemma_default_registered_with(f4, n[5], true, n[2]);
    lemma_default_registered_with(f4, n[5], true, n[3]);
    lemma_default_registered_with(f4, n[5], true, n[4]);
    lemma_default_registered_with(f4, n[5], true, n[5]);
    lemma_default_registered_with(f5, n[6], true, n[0]);
    lemma_default_registered_with(f5, n[6], true, n[1]);
    lemma_default_registered_with(f5, n[6], true, n[2]);
    lemma_default_registered_with(f5, n[6], true, n[3]);
    lemma_default_registered_with(f5, n[6], true, n[4]);
    lemma_default_registered_with(f5, n[6], true, n[5]);
    lemma_default_registered_with(f5, n[6], true, n[6]);
    assert forall|k: int| 0 <= k < n.len() implies #[trigger] default_registered(f6, n[k]) by {
        assert(k == 0 || k == 1 || k == 2 || k == 3 || k == 4 || k == 5 || k == 6);
    }
}

/// The built-in factories, registered in an empty registry: seven default
/// factories, one for each built-in class, in the order of registration.
pub proof fn lemma_builtin_factories_on_empty()
    ensures
        ({
            let fs = with_builtin_factories(Seq::<FactoryInfo>::empty());
            &&& fs.len() == 7
            &&& names_of(fs) == seq![
                "Windows.Foundation.Uri"@,
                "Windows.Foundation.PropertyValue"@,
                "Windows.Storage.StorageFile"@,
                "Windows.Storage.StorageFolder"@,
                "Windows.Storage.ApplicationData"@,
                "Windows.UI.Colors"@,
                "Windows.Networking.HostName"@,
            ]
            &&& forall|i: int| 0 <= i < 7 ==> #[trigger] fs[i].is_default
            &&& names_distinct(fs)
        }),
{
    lemma_builtin_class_names_distinct();
    let n0 = builtin_class_names()[0];
    let n1 = builtin_class_names()[1];
    let n2 = builtin_class_names()[2];
    let n3 = builtin_class_names()[3];
    let n4 = builtin_class_names()[4];
    let n5 = builtin_class_names()[5];
    let n6 = builtin_class_names()[6];
    assert(n0 != n1 && n0 != n2 && n0 != n3 && n0 != n4 && n0 != n5 && n0 != n6);
    assert(n1 != n2 && n1 != n3 && n1 != n4 && n1 != n5 && n1 != n6);
    assert(n2 != n3 && n2 != n4 && n2 != n5 && n2 != n6);
    assert(n3 != n4 && n3 != n5 && n3 != n6);
    assert(n4 != n5 && n4 != n6 && n5 != n6);
    let f0 = with_default(Seq::<FactoryInfo>::empty(), n0);
    let f1 = with_default(f0, n1);
    let f2 = with_default(f1, n2);
    let f3 = with_default(f2, n3);
    let f4 = with_default(f3, n4);
    let f5 = with_default(f4, n5);
    let f6 = with_default(f5, n6);
    assert(names_of(Seq::<FactoryInfo>::empty()) =~= Seq::<Seq<char>>::empty());
    lemma_first_index(names_of(Seq::<FactoryInfo>::empty()), n0);
    assert(names_of(f0) =~= seq![n0]);
    lemma_first_index(names_of(f0), n1);
    assert(names_of(f1) =~= seq![n0, n1]);
    lemma_first_index(names_of(f1), n2);
    assert(names_of(f2) =~= seq![n0, n1, n2]);
    lemma_first_index(names_of(f2), n3);
    assert(names_of(f3) =~= seq![n0, n1, n2, n3]);
    lemma_first_index(names_of(f3), n4);
    assert(names_of(f4) =~= seq![n0, n1, n2, n3, n4]);
    lemma_first_index(names_of(f4), n5);
    assert(names_of(f5) =~= seq![n0, n1, n2, n3, n4, n5]);
    lemma_first_index(names_of(f5), n6);
    assert(names_of(f6) =~= seq![n0, n1, n2, n3, n4, n5, n6]);
    assert forall|i: int| 0 <= i < 7 implies #[trigger] f6[i].is_default by {}
    assert forall|a: int, b: int| 0 <= a < b < f6.len() implies f6[a].name != f6[b].name by {
        assert(names_of(f6)[a] == f6[a].name);
        assert(names_of(f6)[b] == f6[b].name);
    }
}

} // verus!
