//! The downstream model: one configuration, and methods and properties by id.

use vstd::prelude::*;
use crate::keyed_map::KeyedMap;
use crate::text::{chars_of, concat_chars, string_from_chars};
use crate::mqtt::parser::{JsonKind, JsonNode};

verus! {

/// How to reach and log in to the machines, with free-form settings by id
/// (each a JSON value).
#[derive(Debug)]
pub struct Configuration {
    pub ipaddress: String,
    pub username: String,
    pub password: String,
    pub settings: KeyedMap<JsonNode>,
}

impl Default for Configuration {
    fn default() -> (c: Configuration)
        ensures
            c.ipaddress@ == Seq::<char>::empty(),
            c.username@ == Seq::<char>::empty(),
            c.password@ == Seq::<char>::empty(),
            c.settings.wf(),
            c.settings@ == Map::<Seq<char>, JsonNode>::empty(),
    {
        Configuration {
            ipaddress: String::new(),
            username: String::new(),
            password: String::new(),
            settings: KeyedMap::new(),
        }
    }
}

/// A method the machines offer, with its variables by id.
#[derive(Debug)]
pub struct Method {
    pub variables: KeyedMap<JsonNode>,
}

impl Default for Method {
    fn default() -> (m: Method)
        ensures
            m.variables.wf(),
            m.variables@ == Map::<Seq<char>, JsonNode>::empty(),
    {
        Method { variables: KeyedMap::new() }
    }
}

/// A property of the machines: its type name and value.
#[derive(Debug)]
pub struct Property {
    pub ty: String,
    pub value: JsonNode,
}

/// A method that can be executed by name; what executing means is left to
/// the implementation.
pub trait ExecuteMethod<GatewayError> {
    fn execute_method(&self, name: &String) -> Result<(), GatewayError>;
}

/// The downstream side: an optional configuration, and methods and
/// properties by id.
#[derive(Debug)]
pub struct IDownstream {
    pub configuration: Option<Configuration>,
    pub methods: KeyedMap<Method>,
    pub properties: KeyedMap<Property>,
}

/// The message for a method id that is not known.
pub open spec fn unknown_method_message(name: Seq<char>) -> Seq<char> {
    "unknown method id: "@ + name
}

impl IDownstream {
    /// Both maps are well formed.
    pub open spec fn wf(&self) -> bool {
        self.methods.wf() && self.properties.wf()
    }

    /// A downstream with no configuration, method or property.
    pub fn new() -> (d: IDownstream)
        ensures
            d.wf(),
            d.configuration is None,
            d.methods@ == Map::<Seq<char>, Method>::empty(),
            d.properties@ == Map::<Seq<char>, Property>::empty(),
    {
        IDownstream { configuration: None, methods: KeyedMap::new(), properties: KeyedMap::new() }
    }

    /// Replaces the configuration.
    pub fn set_configuration(&mut self, conf: Configuration)
        ensures
            final(self).configuration == Some(conf),
            final(self).methods == old(self).methods,
            final(self).properties == old(self).properties,
    {
        self.configuration = Some(conf);
    }

    /// The configuration, if one was set.
    pub fn configuration(&self) -> (r: Option<&Configuration>)
        ensures
            match (r, self.configuration) {
                (Some(c), Some(d)) => *c == d,
                (None, None) => true,
                _ => false,
            },
    {
        self.configuration.as_ref()
    }

    /// Sets the property `id`.
    pub fn upsert_property(&mut self, id: String, prop: Property)
        requires
            old(self).wf(),
        ensures
            final(self).wf(),
            final(self).properties@ == old(self).properties@.insert(id@, prop),
            final(self).methods == old(self).methods,
            final(self).configuration == old(self).configuration,
    {
        self.properties.insert(id, prop);
    }

    /// The property `id`, if it is known.
    pub fn property(&self, id: &String) -> (r: Option<&Property>)
        requires
            self.wf(),
        ensures
            r matches Some(p) ==> self.properties@.contains_key(id@) && *p == self.properties@[id@],
            r is None ==> !self.properties@.contains_key(id@),
    {
        self.properties.get(id.as_str())
    }

    /// Removes the property `id` and returns it, if it was known.
    pub fn remove_property(&mut self, id: &String) -> (r: Option<Property>)
        requires
            old(self).wf(),
        ensures
            final(self).wf(),
            final(self).properties@ == old(self).properties@.remove(id@),
            r matches Some(p) ==> old(self).properties@.contains_key(id@) && p == old(self).properties@[id@],
            r is None ==> !old(self).properties@.contains_key(id@),
            final(self).methods == old(self).methods,
            final(self).configuration == old(self).configuration,
    {
        self.properties.remove(id.as_str())
    }

    /// Sets the method `id`.
    pub fn upsert_method(&mut self, id: String, method: Method)
        requires
            old(self).wf(),
        ensures
            final(self).wf(),
            final(self).methods@ == old(self).methods@.insert(id@, method),
            final(self).properties == old(self).properties,
            final(self).configuration == old(self).configuration,
    {
        self.methods.insert(id, method);
    }

    /// The method `id`, if it is known.
    pub fn method(&self, id: &String) -> (r: Option<&Method>)
        requires
            self.wf(),
        ensures
            r matches Some(m) ==> self.methods@.contains_key(id@) && *m == self.methods@[id@],
            r is None ==> !self.methods@.contains_key(id@),
    {
        self.methods.get(id.as_str())
    }

    /// Removes the method `id` and returns it, if it was known.
    pub fn remove_method(&mut self, id: &String) -> (r: Option<Method>)
        requires
            old(self).wf(),
        ensures
            final(self).wf(),
            final(self).methods@ == old(self).methods@.remove(id@),
            r matches Some(m) ==> old(self).methods@.contains_key(id@) && m == old(self).methods@[id@],
            r is None ==> !old(self).methods@.contains_key(id@),
            final(self).properties == old(self).properties,
            final(self).configuration == old(self).configuration,
    {
        self.methods.remove(id.as_str())
    }

    /// What executing a method amounts to when no transport handles it:
    /// it succeeds exactly when the method is known.
    pub fn execute_method(&self, name: &String) -> (r: Result<(), String>)
        requires
            self.wf(),
        ensures
            r is Ok == self.methods@.contains_key(name@),
            r matches Err(m) ==> m@ == unknown_method_message(name@),
    {
        if self.methods.contains_key(name.as_str()) {
            Ok(())
        } else {
            let msg = concat_chars(&chars_of("unknown method id: "), &chars_of(name.as_str()));
            Err(string_from_chars(&msg))
        }
    }
}

/// The members of a JSON object by key, a later member replacing an earlier
/// one of the same key.
pub open spec fn members_map(fields: Seq<(String, JsonNode)>) -> Map<Seq<char>, JsonNode>
    decreases fields.len(),
{
    if fields.len() == 0 {
        Map::empty()
    } else {
        members_map(fields.drop_last()).insert(fields.last().0@, fields.last().1)
    }
}

/// The members of a JSON object as a map by key.
fn members_of(fields: Vec<(String, JsonNode)>) -> (m: KeyedMap<JsonNode>)
    ensures
        m.wf(),
        m@ == members_map(fields@),
{
    let ghost all = fields@;
    let n = fields.len();
    let mut rest = fields;
    let mut m: KeyedMap<JsonNode> = KeyedMap::new();
    assert(all.skip(0) =~= all);
    assert(all.take(0) =~= Seq::<(String, JsonNode)>::empty());
    while rest.len() > 0
        invariant
            n == all.len(),
            rest.len() <= n,
            rest@ == all.skip(n - rest.len()),
            m.wf(),
            m@ == members_map(all.take(n - rest.len())),
        decreases rest.len(),
    {
        let ghost done = n - rest.len();
        let (k, v) = rest.remove(0);
        proof {
            assert(rest@ =~= all.skip(done + 1));
            assert(all.take(done + 1).drop_last() =~= all.take(done));
            assert(all.take(done + 1).last() == all[done]);
        }
        m.insert(k, v);
    }
    assert(all.take(n as int) =~= all);
    m
}

/// The settings that a JSON value gives a configuration: the members of an
/// object; any other value is kept whole under the key "default".
pub fn settings_from_json(v: JsonNode) -> (m: KeyedMap<JsonNode>)
    ensures
        m.wf(),
        match v.kind {
            JsonKind::Object(fields) => m@ == members_map(fields@),
            _ => m@ == Map::<Seq<char>, JsonNode>::empty().insert("default"@, v),
        },
{
    match v.kind {
        JsonKind::Object(fields) => members_of(fields),
        _ => {
            let mut m: KeyedMap<JsonNode> = KeyedMap::new();
            m.insert(string_from_chars(&chars_of("default")), v);
            m
        },
    }
}

/// The variables that a JSON value gives a method: the members of an
/// object; any other value is refused.
pub fn variables_from_json(v: JsonNode) -> (r: Option<KeyedMap<JsonNode>>)
    ensures
        match v.kind {
            JsonKind::Object(fields) => r matches Some(m) && m.wf() && m@ == members_map(fields@),
            _ => r is None,
        },
{
    match v.kind {
        JsonKind::Object(fields) => Some(members_of(fields)),
        _ => None,
    }
}

} // verus!
