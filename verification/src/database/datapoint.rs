//! Datapoints: typed values with metadata, and an in-memory registry that
//! defines them, looks them up by id or name and holds their current values.

use vstd::prelude::*;
use crate::keyed_map::KeyedMap;
use crate::text::string_of;

verus! {

/// A stable id for a datapoint.
#[derive(Clone, Debug, PartialEq, Eq, Hash)]
pub struct DataPointId(pub String);

impl DataPointId {
    /// The id `id`.
    pub fn new(id: &str) -> (d: DataPointId)
        ensures
            d.0@ == id@,
    {
        DataPointId(string_of(id))
    }
}

/// A fully qualified name such as "machine.1.temperature" or "db.schema.table.column".
#[derive(Clone, Debug, PartialEq, Eq, Hash)]
pub struct QualifiedName(pub String);

impl QualifiedName {
    /// The name `name`.
    pub fn new(name: &str) -> (n: QualifiedName)
        ensures
            n.0@ == name@,
    {
        QualifiedName(string_of(name))
    }
}

/// The type of value a datapoint carries.
#[derive(Debug)]
pub enum ValueType {
    Null,
    Bool,
    I64,
    U64,
    F64,
    String,
    Bytes,
    /// Milliseconds since the Unix epoch.
    TimestampMillis,
    /// A list whose items have this type.
    Array(Box<ValueType>),
    Object,
    /// DECIMAL/NUMERIC.
    Decimal { precision: u32, scale: u32 },
    /// A database-specific or user-defined type.
    Custom(String),
}

/// A dynamic value.
#[derive(Debug)]
pub enum Value {
    Null,
    Bool(bool),
    I64(i64),
    U64(u64),
    /// A 64-bit float, held as its IEEE 754 bit pattern (`f64::to_bits`).
    F64(u64),
    String(String),
    Bytes(Vec<u8>),
    TimestampMillis(i64),
    Array(Vec<Value>),
    Object(KeyedMap<Value>),
}

/// The number of items of `v` if it is a list, else 0.
pub open spec fn items_len(v: Value) -> nat {
    match v {
        Value::Array(items) => items@.len(),
        _ => 0,
    }
}

/// The type of `v`. A list whose items all have one type has that type of
/// items, an empty list has items of type `Null`, and a list whose items'
/// types differ counts as an `Object` (see `lemma_items_agree`).
pub open spec fn type_of(v: Value) -> ValueType
    decreases v, items_len(v) + 1,
{
    match v {
        Value::Null => ValueType::Null,
        Value::Bool(_) => ValueType::Bool,
        Value::I64(_) => ValueType::I64,
        Value::U64(_) => ValueType::U64,
        Value::F64(_) => ValueType::F64,
        Value::String(_) => ValueType::String,
        Value::Bytes(_) => ValueType::Bytes,
        Value::TimestampMillis(_) => ValueType::TimestampMillis,
        Value::Array(items) => if items@.len() == 0 {
            ValueType::Array(Box::new(ValueType::Null))
        } else if items_agree(v, items@.len()) {
            ValueType::Array(Box::new(type_of(items@[0])))
        } else {
            ValueType::Object
        },
        Value::Object(_) => ValueType::Object,
    }
}

/// Whether the first `n` items of the list `v` have the type of its first item.
pub open spec fn items_agree(v: Value, n: nat) -> bool
    decreases v, n,
{
    match v {
        Value::Array(items) => if n == 0 || n > items@.len() {
            true
        } else {
            items_agree(v, (n - 1) as nat) && type_of(items@[n - 1]) == type_of(items@[0])
        },
        _ => true,
    }
}

/// `items_agree` says that each of the first `n` items has the first item's type.
pub proof fn lemma_items_agree(items: Vec<Value>, n: nat)
    requires
        n <= items@.len(),
    ensures
        items_agree(Value::Array(items), n) <==> forall|i: int| 0 <= i < n ==> #[trigger] type_of(items@[i])
            == type_of(items@[0]),
    decreases n,
{
    if n > 0 {
        lemma_items_agree(items, (n - 1) as nat);
        assert(items_agree(Value::Array(items), n) == (items_agree(Value::Array(items), (n - 1) as nat)
            && type_of(items@[n - 1]) == type_of(items@[0])));
    }
}

/// Whether `t` is built from the kinds of type that a value has: no decimal
/// and no custom type, at any depth.
pub open spec fn is_value_kind(t: ValueType) -> bool
    decreases t,
{
    match t {
        ValueType::Array(inner) => is_value_kind(*inner),
        ValueType::Decimal { .. } => false,
        ValueType::Custom(_) => false,
        _ => true,
    }
}

/// The type of a value is of a kind that values have.
pub proof fn lemma_type_of_is_value_kind(v: Value)
    ensures
        is_value_kind(type_of(v)),
    decreases v,
{
    match v {
        Value::Array(items) => {
            if items@.len() > 0 {
                assert(decreases_to!(v => items@[0]));
                lemma_type_of_is_value_kind(items@[0]);
                if items_agree(v, items@.len()) {
                    assert(type_of(v) == ValueType::Array(Box::new(type_of(items@[0]))));
                    assert(is_value_kind(ValueType::Array(Box::new(type_of(items@[0])))));
                } else {
                    assert(type_of(v) == ValueType::Object);
                }
            } else {
                assert(is_value_kind(ValueType::Null));
            }
        },
        _ => {},
    }
}

/// Whether `a` and `b` are the same type, for types of the kinds values have.
fn same_value_type(a: &ValueType, b: &ValueType) -> (r: bool)
    ensures
        r ==> *a == *b,
        *a == *b && is_value_kind(*a) ==> r,
    decreases *a,
{
    match (a, b) {
        (ValueType::Null, ValueType::Null) => true,
        (ValueType::Bool, ValueType::Bool) => true,
        (ValueType::I64, ValueType::I64) => true,
        (ValueType::U64, ValueType::U64) => true,
        (ValueType::F64, ValueType::F64) => true,
        (ValueType::String, ValueType::String) => true,
        (ValueType::Bytes, ValueType::Bytes) => true,
        (ValueType::TimestampMillis, ValueType::TimestampMillis) => true,
        (ValueType::Object, ValueType::Object) => true,
        (ValueType::Array(x), ValueType::Array(y)) => same_value_type(&**x, &**y),
        _ => false,
    }
}

impl Value {
    /// The type of the value (see `type_of`).
    pub fn value_type(&self) -> (t: ValueType)
        ensures
            t == type_of(*self),
        decreases *self,
    {
        match self {
            Value::Null => ValueType::Null,
            Value::Bool(_) => ValueType::Bool,
            Value::I64(_) => ValueType::I64,
            Value::U64(_) => ValueType::U64,
            Value::F64(_) => ValueType::F64,
            Value::String(_) => ValueType::String,
            Value::Bytes(_) => ValueType::Bytes,
            Value::TimestampMillis(_) => ValueType::TimestampMillis,
            Value::Array(items) => {
                if items.len() == 0 {
                    return ValueType::Array(Box::new(ValueType::Null));
                }
                proof {
                    assert(decreases_to!(*self => items@[0]));
                }
                let first = items[0].value_type();
                proof {
                    lemma_type_of_is_value_kind(items@[0]);
                }
                let mut i: usize = 1;
                proof {
                    assert(items_agree(*self, 0));
                    assert(items_agree(*self, 1));
                }
                while i < items.len()
                    invariant
                        *self == Value::Array(*items),
                        1 <= i <= items@.len(),
                        first == type_of(items@[0]),
                        is_value_kind(first),
                        items_agree(*self, i as nat),
                    decreases items.len() - i,
                {
                    proof {
                        assert(decreases_to!(*self => items@[i as int]));
                    }
                    let t = items[i].value_type();
                    if !same_value_type(&t, &first) {
                        proof {
                            assert(type_of(items@[i as int]) != type_of(items@[0]));
                            lemma_items_agree(*items, items@.len());
                            assert(!items_agree(*self, items@.len()));
                            assert(type_of(*self) == ValueType::Object);
                        }
                        return ValueType::Object;
                    }
                    proof {
                        assert(items_agree(*self, (i + 1) as nat) == (items_agree(*self, i as nat)
                            && type_of(items@[i as int]) == type_of(items@[0])));
                    }
                    i = i + 1;
                }
                proof {
                    assert(type_of(*self) == ValueType::Array(Box::new(type_of(items@[0]))));
                }
                ValueType::Array(Box::new(first))
            },
            Value::Object(_) => ValueType::Object,
        }
    }
}

/// Whether a value of type `actual` may be stored where `declared` is expected:
/// equal scalar and object types, lists of compatible types, null anywhere, and
/// integers where a float is expected.
pub open spec fn compatible(declared: ValueType, actual: ValueType) -> bool
    decreases declared,
{
    match (declared, actual) {
        (ValueType::I64, ValueType::I64) => true,
        (ValueType::U64, ValueType::U64) => true,
        (ValueType::F64, ValueType::F64) => true,
        (ValueType::Bool, ValueType::Bool) => true,
        (ValueType::String, ValueType::String) => true,
        (ValueType::Bytes, ValueType::Bytes) => true,
        (ValueType::TimestampMillis, ValueType::TimestampMillis) => true,
        (ValueType::Object, ValueType::Object) => true,
        (ValueType::Array(d), ValueType::Array(a)) => compatible(*d, *a),
        (_, ValueType::Null) => true,
        (ValueType::F64, ValueType::I64) => true,
        (ValueType::F64, ValueType::U64) => true,
        _ => false,
    }
}

/// Every type of the kinds that values have fits where that same type is
/// declared.
pub proof fn lemma_compatible_reflexive(t: ValueType)
    requires
        is_value_kind(t),
    ensures
        compatible(t, t),
    decreases t,
{
    match t {
        ValueType::Array(inner) => lemma_compatible_reflexive(*inner),
        _ => {},
    }
}

/// Only like fits like: a type fits where another is declared only if it is
/// the null type, the same type, a whole number where a float is declared, or
/// a list whose item type fits the declared item type.
pub proof fn lemma_compatible_only_like(declared: ValueType, actual: ValueType)
    requires
        compatible(declared, actual),
    ensures
        actual is Null || declared == actual || (declared is F64 && (actual is I64 || actual is U64)) || (
        declared is Array && actual is Array && compatible(*declared->Array_0, *actual->Array_0)),
        declared is Decimal ==> actual is Null,
        declared is Custom ==> actual is Null,
{
}

/// A value always fits where its own type is declared; a null value fits
/// everywhere; whole numbers fit where a float is declared.
pub proof fn lemma_value_fits_declared_type(v: Value, declared: ValueType)
    ensures
        compatible(type_of(v), type_of(v)),
        v is Null ==> compatible(declared, type_of(v)),
        (v is I64 || v is U64) ==> compatible(ValueType::F64, type_of(v)),
{
    lemma_type_of_is_value_kind(v);
    lemma_compatible_reflexive(type_of(v));
}

/// Whether a value of type `actual` may be stored where `declared` is expected.
pub fn type_compatible(declared: &ValueType, actual: &ValueType) -> (b: bool)
    ensures
        b == compatible(*declared, *actual),
    decreases *declared,
{
    match (declared, actual) {
        (ValueType::I64, ValueType::I64) => true,
        (ValueType::U64, ValueType::U64) => true,
        (ValueType::F64, ValueType::F64) => true,
        (ValueType::Bool, ValueType::Bool) => true,
        (ValueType::String, ValueType::String) => true,
        (ValueType::Bytes, ValueType::Bytes) => true,
        (ValueType::TimestampMillis, ValueType::TimestampMillis) => true,
        (ValueType::Object, ValueType::Object) => true,
        (ValueType::Array(d), ValueType::Array(a)) => type_compatible(&**d, &**a),
        (_, ValueType::Null) => true,
        (ValueType::F64, ValueType::I64) => true,
        (ValueType::F64, ValueType::U64) => true,
        _ => false,
    }
}

/// A copy of `t`.
pub fn copy_type(t: &ValueType) -> (r: ValueType)
    ensures
        r == *t,
    decreases *t,
{
    match t {
        ValueType::Null => ValueType::Null,
        ValueType::Bool => ValueType::Bool,
        ValueType::I64 => ValueType::I64,
        ValueType::U64 => ValueType::U64,
        ValueType::F64 => ValueType::F64,
        ValueType::String => ValueType::String,
        ValueType::Bytes => ValueType::Bytes,
        ValueType::TimestampMillis => ValueType::TimestampMillis,
        ValueType::Array(inner) => ValueType::Array(Box::new(copy_type(&**inner))),
        ValueType::Object => ValueType::Object,
        ValueType::Decimal { precision, scale } => ValueType::Decimal { precision: *precision, scale: *scale },
        ValueType::Custom(s) => ValueType::Custom(s.clone()),
    }
}

/// Where a datapoint lives in an underlying database model.
#[derive(Debug)]
pub enum SourceRef {
    SqlColumn { schema: Option<String>, table: String, column: String },
    TimeSeriesField { measurement: String, field: String, tag_keys: Vec<String> },
    KeyValue { key: String },
    /// A path such as "$.a.b[0].c" in a document of a collection.
    DocumentPath { collection: String, path: String },
    Custom(KeyedMap<String>),
}

/// Bounds and allowed values of a datapoint.
#[derive(Debug)]
pub struct Constraints {
    pub min: Option<Value>,
    pub max: Option<Value>,
    pub allowed: Option<Vec<Value>>,
}

/// The metadata of a datapoint.
#[derive(Debug)]
pub struct DataPointMeta {
    pub id: DataPointId,
    pub name: QualifiedName,
    /// The type the datapoint is expected to carry.
    pub declared_type: ValueType,
    /// A unit such as °C, bar, ms or %.
    pub unit: Option<String>,
    pub description: Option<String>,
    /// Tags for routing and lookup, such as machine=1 or line=A.
    pub tags: KeyedMap<String>,
    pub source: Option<SourceRef>,
    pub constraints: Option<Constraints>,
}

/// A value and when it was taken, in milliseconds since the Unix epoch.
#[derive(Debug)]
pub struct TimedValue {
    pub ts_millis: i64,
    pub value: Value,
}

/// Reads the system clock (`std::time::SystemTime::now`) and returns the
/// milliseconds since the Unix epoch, 0 for an earlier clock. Nothing is
/// promised of the value: it depends on the clock.
#[verifier::external_body]
fn unix_time_millis() -> (ms: i64) {
    std::time::SystemTime::now().duration_since(std::time::UNIX_EPOCH).unwrap_or_default().as_millis() as i64
}

impl TimedValue {
    /// `value`, stamped with the current time.
    pub fn now(value: Value) -> (t: TimedValue)
        ensures
            t.value == value,
    {
        TimedValue { ts_millis: unix_time_millis(), value }
    }
}

/// A datapoint and its last known value.
#[derive(Debug)]
pub struct DataPointState {
    pub meta: DataPointMeta,
    pub current: Option<TimedValue>,
}

/// A set of datapoint definitions, applied to a registry at run time.
#[derive(Debug)]
pub struct Schema {
    pub namespace: Option<String>,
    pub datapoints: Vec<DataPointMeta>,
    pub version: Option<String>,
}

/// Why the registry refused a value.
#[derive(Debug)]
pub enum RegistryError {
    /// The value's type does not fit the datapoint's declared type.
    TypeMismatch { name: QualifiedName, declared: ValueType, actual: ValueType },
    /// No datapoint has this id and none was to be defined.
    UnknownId(DataPointId),
}

/// Whether no datapoint after the `i`-th among the first `n` of `s` has its id.
pub open spec fn last_with_its_id(s: Seq<DataPointMeta>, i: int, n: int) -> bool {
    forall|j: int| i < j < n ==> (#[trigger] s[j]).id.0@ != s[i].id.0@
}

/// An in-memory registry of datapoints, by id and by name.
pub struct DataPointRegistry {
    by_id: KeyedMap<DataPointState>,
    by_name: KeyedMap<String>,
}

impl DataPointRegistry {
    /// The registry's internal invariant.
    pub closed spec fn wf(&self) -> bool {
        self.by_id.wf() && self.by_name.wf()
    }

    /// The datapoints by id.
    pub closed spec fn states(&self) -> Map<Seq<char>, DataPointState> {
        self.by_id@
    }

    /// The id that each registered name refers to.
    pub closed spec fn names(&self) -> Map<Seq<char>, Seq<char>> {
        Map::new(|k: Seq<char>| self.by_name@.contains_key(k), |k: Seq<char>| self.by_name@[k]@)
    }

    /// An empty registry.
    pub fn new() -> (r: DataPointRegistry)
        ensures
            r.wf(),
            r.states() == Map::<Seq<char>, DataPointState>::empty(),
            r.names() == Map::<Seq<char>, Seq<char>>::empty(),
    {
        let r = DataPointRegistry { by_id: KeyedMap::new(), by_name: KeyedMap::new() };
        proof {
            assert(r.names() =~= Map::<Seq<char>, Seq<char>>::empty());
        }
        r
    }

    /// Registers `meta`, or replaces the metadata of a datapoint with its id
    /// while keeping that datapoint's current value; its name then refers to its id.
    pub fn upsert_meta(&mut self, meta: DataPointMeta)
        requires
            old(self).wf(),
        ensures
            final(self).wf(),
            final(self).states() == old(self).states().insert(
                meta.id.0@,
                DataPointState {
                    meta,
                    current: if old(self).states().contains_key(meta.id.0@) {
                        old(self).states()[meta.id.0@].current
                    } else {
                        None
                    },
                },
            ),
            final(self).names() == old(self).names().insert(meta.name.0@, meta.id.0@),
    {
        let id = meta.id.0.clone();
        let name = meta.name.0.clone();
        let current = match self.by_id.remove(id.as_str()) {
            Some(existing) => existing.current,
            None => None,
        };
        let key = id.clone();
        self.by_id.insert(key, DataPointState { meta, current });
        self.by_name.insert(name, id);
        proof {
            assert(self.by_id@ =~= old(self).by_id@.insert(
                meta.id.0@,
                DataPointState {
                    meta,
                    current: if old(self).by_id@.contains_key(meta.id.0@) {
                        old(self).by_id@[meta.id.0@].current
                    } else {
                        None
                    },
                },
            ));
            assert(self.names() =~= old(self).names().insert(meta.name.0@, meta.id.0@));
        }
    }

    /// Registers every datapoint of `schema`, in order.
    pub fn apply_schema(&mut self, schema: Schema)
        requires
            old(self).wf(),
        ensures
            final(self).wf(),
            forall|i: int|
                0 <= i < schema.datapoints@.len() && #[trigger] last_with_its_id(
                    schema.datapoints@,
                    i,
                    schema.datapoints@.len() as int,
                ) ==> final(self).states().contains_key(schema.datapoints@[i].id.0@)
                    && final(self).states()[schema.datapoints@[i].id.0@].meta == schema.datapoints@[i],
            forall|k: Seq<char>| #[trigger] old(self).states().contains_key(k) ==> final(self).states().contains_key(k),
    {
        let mut rest = schema.datapoints;
        let ghost all = rest@;
        let ghost mut n: int = 0;
        while rest.len() > 0
            invariant
                self.wf(),
                0 <= n <= all.len(),
                rest@ == all.skip(n),
                forall|i: int|
                    0 <= i < n && #[trigger] last_with_its_id(all, i, n) ==> self.states().contains_key(all[i].id.0@)
                        && self.states()[all[i].id.0@].meta == all[i],
                forall|k: Seq<char>| #[trigger] old(self).states().contains_key(k) ==> self.states().contains_key(k),
            decreases rest.len(),
        {
            let dp = rest.remove(0);
            proof {
                assert(dp == all[n]);
                assert(rest@ =~= all.skip(n + 1));
            }
            self.upsert_meta(dp);
            proof {
                assert forall|i: int| 0 <= i < n + 1 && #[trigger] last_with_its_id(all, i, n + 1) implies self.states().contains_key(all[i].id.0@)
                    && self.states()[all[i].id.0@].meta == all[i] by {
                    if i < n {
                        assert(all[n].id.0@ != all[i].id.0@);
                        assert(last_with_its_id(all, i, n));
                    }
                }
                n = n + 1;
            }
        }
    }

    /// The datapoint with id `id`, if any.
    pub fn get_by_id(&self, id: &DataPointId) -> (r: Option<&DataPointState>)
        requires
            self.wf(),
        ensures
            r matches Some(s) ==> self.states().contains_key(id.0@) && *s == self.states()[id.0@],
            r is None ==> !self.states().contains_key(id.0@),
    {
        self.by_id.get(id.0.as_str())
    }

    /// The datapoint that `name` refers to, if any.
    pub fn get_by_name(&self, name: &QualifiedName) -> (r: Option<&DataPointState>)
        requires
            self.wf(),
        ensures
            r matches Some(s) ==> self.names().contains_key(name.0@) && self.states().contains_key(
                self.names()[name.0@],
            ) && *s == self.states()[self.names()[name.0@]],
            r is None ==> !self.names().contains_key(name.0@) || !self.states().contains_key(
                self.names()[name.0@],
            ),
    {
        let id = self.by_name.get(name.0.as_str())?;
        self.by_id.get(id.as_str())
    }

    /// Stores `value` as the current value of datapoint `id`.
    ///
    /// A known datapoint takes values whose type is compatible with its
    /// declared type and refuses others with `TypeMismatch`. An unknown id is
    /// refused with `UnknownId`, unless `auto_define` is set: then a datapoint
    /// is defined on the fly, named `default_name` (else after its id), tagged
    /// `default_tags` and declared with the value's type.
    pub fn set_value(
        &mut self,
        id: DataPointId,
        value: TimedValue,
        auto_define: bool,
        default_name: Option<QualifiedName>,
        default_tags: KeyedMap<String>,
    ) -> (r: Result<(), RegistryError>)
        requires
            old(self).wf(),
        ensures
            final(self).wf(),
            old(self).states().contains_key(id.0@) ==> {
                let dp = old(self).states()[id.0@];
                if compatible(dp.meta.declared_type, type_of(value.value)) {
                    &&& r is Ok
                    &&& final(self).states() == old(self).states().insert(
                        id.0@,
                        DataPointState { meta: dp.meta, current: Some(value) },
                    )
                    &&& final(self).names() == old(self).names()
                } else {
                    &&& r matches Err(RegistryError::TypeMismatch { name, declared, actual })
                    &&& name.0@ == dp.meta.name.0@
                    &&& declared == dp.meta.declared_type
                    &&& actual == type_of(value.value)
                    &&& final(self).states() == old(self).states()
                    &&& final(self).names() == old(self).names()
                }
            },
            !old(self).states().contains_key(id.0@) && !auto_define ==> {
                &&& r matches Err(RegistryError::UnknownId(u))
                &&& u.0@ == id.0@
                &&& final(self).states() == old(self).states()
                &&& final(self).names() == old(self).names()
            },
            !old(self).states().contains_key(id.0@) && auto_define ==> {
                let name = match default_name {
                    Some(n) => n.0@,
                    None => id.0@,
                };
                let dp = final(self).states()[id.0@];
                &&& r is Ok
                &&& final(self).states().contains_key(id.0@)
                &&& final(self).states() == old(self).states().insert(id.0@, dp)
                &&& dp.meta.id.0@ == id.0@
                &&& dp.meta.name.0@ == name
                &&& dp.meta.declared_type == type_of(value.value)
                &&& dp.meta.unit is None
                &&& dp.meta.description is None
                &&& dp.meta.tags == default_tags
                &&& dp.meta.source is None
                &&& dp.meta.constraints is None
                &&& dp.current == Some(value)
                &&& final(self).names() == old(self).names().insert(name, id.0@)
            },
    {
        let key = id.0.clone();
        match self.by_id.remove(key.as_str()) {
            Some(dp) => {
                let mut dp = dp;
                let actual = value.value.value_type();
                if !type_compatible(&dp.meta.declared_type, &actual) {
                    let name = QualifiedName(dp.meta.name.0.clone());
                    let declared = copy_type(&dp.meta.declared_type);
                    self.by_id.insert(key, dp);
                    proof {
                        assert(self.by_id@ =~= old(self).by_id@);
                    }
                    return Err(RegistryError::TypeMismatch { name, declared, actual });
                }
                dp.current = Some(value);
                self.by_id.insert(key, dp);
                proof {
                    assert(self.by_id@ =~= old(self).by_id@.insert(
                        id.0@,
                        DataPointState { meta: old(self).by_id@[id.0@].meta, current: Some(value) },
                    ));
                }
                Ok(())
            },
            None => {
                if !auto_define {
                    proof {
                        assert(self.by_id@ =~= old(self).by_id@);
                    }
                    return Err(RegistryError::UnknownId(id));
                }
                let name = match default_name {
                    Some(n) => n,
                    None => QualifiedName(id.0.clone()),
                };
                let declared_type = value.value.value_type();
                let meta = DataPointMeta {
                    id: DataPointId(id.0.clone()),
                    name: QualifiedName(name.0.clone()),
                    declared_type,
                    unit: None,
                    description: None,
                    tags: default_tags,
                    source: None,
                    constraints: None,
                };
                self.by_name.insert(name.0, id.0.clone());
                self.by_id.insert(key, DataPointState { meta, current: Some(value) });
                proof {
                    assert(self.by_id@ =~= old(self).by_id@.insert(id.0@, self.by_id@[id.0@]));
                    assert(self.names() =~= old(self).names().insert(
                        match default_name {
                            Some(n) => n.0@,
                            None => id.0@,
                        },
                        id.0@,
                    ));
                }
                Ok(())
            },
        }
    }

    /// The ids of the datapoints, in the order the registry keeps them.
    pub closed spec fn id_order(&self) -> Seq<Seq<char>> {
        self.by_id.key_list()
    }

    /// All datapoints, each once, in the order of `id_order`.
    pub fn list(&self) -> (out: Vec<&DataPointState>)
        requires
            self.wf(),
        ensures
            out@.len() == self.id_order().len(),
            forall|i: int| 0 <= i < out@.len() ==> *out@[i] == self.states()[#[trigger] self.id_order()[i]],
            self.id_order().to_set() == self.states().dom(),
            self.id_order().no_duplicates(),
    {
        let n = self.by_id.key_count();
        let mut out: Vec<&DataPointState> = Vec::new();
        let mut i: usize = 0;
        proof {
            self.by_id.lemma_key_list();
        }
        while i < n
            invariant
                self.wf(),
                n == self.by_id.key_list().len(),
                i <= n,
                out@.len() == i,
                forall|k: int| 0 <= k < i ==> *out@[k] == self.by_id@[#[trigger] self.by_id.key_list()[k]],
            decreases n - i,
        {
            out.push(self.by_id.value_at(i));
            i = i + 1;
        }
        out
    }

    /// The ids of all datapoints, each once.
    pub fn list_ids(&self) -> (ids: Vec<String>)
        requires
            self.wf(),
        ensures
            ids@.map_values(|s: String| s@) == self.id_order(),
            self.id_order().to_set() == self.states().dom(),
            self.id_order().no_duplicates(),
    {
        let n = self.by_id.key_count();
        let mut ids: Vec<String> = Vec::new();
        let mut i: usize = 0;
        proof {
            self.by_id.lemma_key_list();
        }
        while i < n
            invariant
                self.wf(),
                n == self.by_id.key_list().len(),
                i <= n,
                ids@.map_values(|s: String| s@) == self.by_id.key_list().take(i as int),
            decreases n - i,
        {
            let k = self.by_id.key_at(i).clone();
            let ghost before = ids@;
            ids.push(k);
            proof {
                assert(ids@.map_values(|s: String| s@) =~= before.map_values(|s: String| s@).push(k@));
                assert(self.by_id.key_list().take(i + 1) =~= self.by_id.key_list().take(i as int).push(
                    self.by_id.key_list()[i as int],
                ));
            }
            i = i + 1;
        }
        proof {
            assert(self.by_id.key_list().take(n as int) =~= self.by_id.key_list());
        }
        ids
    }
}

/// A read gives back what a write wrote: every successful `set_value` of
/// `value` for `id` leaves the registry's states equal to the old ones with
/// the datapoint of `id` replaced by a state whose current value is `value`;
/// from then on `get_by_id(id)` finds that datapoint with current value
/// `value`, and every other datapoint reads as before.
pub proof fn lemma_read_after_write(
    before: Map<Seq<char>, DataPointState>,
    after: Map<Seq<char>, DataPointState>,
    id: DataPointId,
    stored: DataPointState,
    value: TimedValue,
)
    requires
        after == before.insert(id.0@, stored),
        stored.current == Some(value),
    ensures
        after.contains_key(id.0@),
        after[id.0@].current == Some(value),
        forall|k: Seq<char>| k != id.0@ ==> (#[trigger] after.contains_key(k) == before.contains_key(k)),
        forall|k: Seq<char>| k != id.0@ && before.contains_key(k) ==> #[trigger] after[k] == before[k],
{
}

} // verus!
