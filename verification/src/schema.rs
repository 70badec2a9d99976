//! The document model: schemas (with internal references), operations,
//! and the specification document itself, together with reference
//! resolution.
//!
//! A schema is held as plain values so that every step that reads it can
//! be verified; the document-loading collaborator outside this crate
//! converts its parsed representation into these types.

use vstd::prelude::*;

verus! {

/// How many reference links a resolution may follow before it reports a
/// cyclic or excessively deep chain.
pub const MAX_RESOLVE_DEPTH: usize = 64;

/// The mathematical value of a schema: strings become character
/// sequences, property lists become sequences of named models.
pub enum SchemaModel {
    Primitive(Seq<char>),
    Object(Seq<(Seq<char>, SchemaModel)>),
    Array(Box<SchemaModel>),
    Reference(Seq<char>),
}

/// A schema tree. `Primitive` holds the type keyword (for instance
/// `string`); `Object` holds named properties in document order;
/// `Reference` names a reusable component schema elsewhere in the
/// document.
pub enum Schema {
    Primitive(String),
    Object(Vec<Property>),
    Array(Box<Schema>),
    Reference(String),
}

/// One named property of an object schema.
pub struct Property {
    pub name: String,
    pub schema: Schema,
}

impl Schema {
    /// The mathematical value of this schema.
    pub open spec fn model(self) -> SchemaModel
        decreases self,
    {
        match self {
            Schema::Primitive(t) => SchemaModel::Primitive(t@),
            Schema::Reference(n) => SchemaModel::Reference(n@),
            Schema::Array(b) => SchemaModel::Array(Box::new((*b).model())),
            Schema::Object(props) => SchemaModel::Object(Schema::props_model(props@)),
        }
    }

    /// The mathematical value of a property list, in order.
    pub open spec fn props_model(ps: Seq<Property>) -> Seq<(Seq<char>, SchemaModel)>
        decreases ps,
    {
        if ps.len() == 0 {
            Seq::empty()
        } else {
            seq![(ps[0].name@, ps[0].schema.model())] + Schema::props_model(ps.drop_first())
        }
    }
}

/// `props_model` is a pointwise map: it keeps the length and models each
/// property in place.
pub proof fn lemma_props_model_index(ps: Seq<Property>)
    ensures
        Schema::props_model(ps).len() == ps.len(),
        forall|j: int|
            0 <= j < ps.len() ==> Schema::props_model(ps)[j] == (ps[j].name@, ps[j].schema.model()),
    decreases ps.len(),
{
    if ps.len() > 0 {
        lemma_props_model_index(ps.drop_first());
    }
}

/// One reusable component schema of the document, under its name.
pub struct NamedSchema {
    pub name: String,
    pub schema: Schema,
}

impl NamedSchema {
    /// The mathematical value of a component entry.
    pub open spec fn model(self) -> (Seq<char>, SchemaModel) {
        (self.name@, self.schema.model())
    }
}

/// The mathematical value of a component table, in document order.
pub open spec fn env_model(schemas: Seq<NamedSchema>) -> Seq<(Seq<char>, SchemaModel)> {
    schemas.map(|i: int, ns: NamedSchema| ns.model())
}

/// One media-type entry of a request body: a media type (for instance
/// `application/json`) and the schema of that content.
pub struct MediaEntry {
    pub media_type: String,
    pub schema: Schema,
}

/// The request body of an operation: its content, one entry per media
/// type, in document order.
pub struct RequestBody {
    pub content: Vec<MediaEntry>,
}

/// One documented path + method entry of the document.
pub struct Operation {
    pub path: String,
    pub method: String,
    pub request_body: Option<RequestBody>,
}

/// The parsed specification document: its operations and its reusable
/// component schemas. Immutable after load.
pub struct Document {
    pub operations: Vec<Operation>,
    pub schemas: Vec<NamedSchema>,
}

impl Document {
    /// The mathematical value of the component table.
    pub open spec fn env(self) -> Seq<(Seq<char>, SchemaModel)> {
        env_model(self.schemas@)
    }
}

/// Why a reference failed to resolve: its target is absent from the
/// component table, or the chain of references is longer than
/// `MAX_RESOLVE_DEPTH` (as a cycle is).
#[derive(Clone, Debug, PartialEq, Eq)]
pub enum ResolveError {
    Missing(String),
    TooDeep,
}

/// The mathematical value of a resolution error.
pub enum ResolveErrorModel {
    Missing(Seq<char>),
    TooDeep,
}

impl ResolveError {
    /// The mathematical value of this error.
    pub open spec fn model(self) -> ResolveErrorModel {
        match self {
            ResolveError::Missing(n) => ResolveErrorModel::Missing(n@),
            ResolveError::TooDeep => ResolveErrorModel::TooDeep,
        }
    }
}

/// The component bound to `name`: the first entry of `env` under that
/// name, if any.
pub open spec fn lookup_model(env: Seq<(Seq<char>, SchemaModel)>, name: Seq<char>) -> Option<
    SchemaModel,
>
    decreases env.len(),
{
    if env.len() == 0 {
        None
    } else if env[0].0 == name {
        Some(env[0].1)
    } else {
        lookup_model(env.drop_first(), name)
    }
}

/// What resolving `s` against `env` with `fuel` reference steps left
/// returns: the schema with every reference replaced by its target,
/// fully resolved; or the first error, in depth-first document order.
pub open spec fn resolve_model(
    s: SchemaModel,
    env: Seq<(Seq<char>, SchemaModel)>,
    fuel: nat,
) -> Result<SchemaModel, ResolveErrorModel>
    decreases fuel, s,
{
    match s {
        SchemaModel::Primitive(t) => Ok(SchemaModel::Primitive(t)),
        SchemaModel::Reference(n) => {
            if fuel == 0 {
                Err(ResolveErrorModel::TooDeep)
            } else {
                match lookup_model(env, n) {
                    None => Err(ResolveErrorModel::Missing(n)),
                    Some(t) => resolve_model(t, env, (fuel - 1) as nat),
                }
            }
        },
        SchemaModel::Array(b) => match resolve_model(*b, env, fuel) {
            Ok(r) => Ok(SchemaModel::Array(Box::new(r))),
            Err(e) => Err(e),
        },
        SchemaModel::Object(ps) => match resolve_props_model(ps, env, fuel) {
            Ok(rs) => Ok(SchemaModel::Object(rs)),
            Err(e) => Err(e),
        },
    }
}

/// Pointwise resolution of a property list; the first error wins.
pub open spec fn resolve_props_model(
    ps: Seq<(Seq<char>, SchemaModel)>,
    env: Seq<(Seq<char>, SchemaModel)>,
    fuel: nat,
) -> Result<Seq<(Seq<char>, SchemaModel)>, ResolveErrorModel>
    decreases fuel, ps,
{
    if ps.len() == 0 {
        Ok(Seq::empty())
    } else {
        match resolve_model(ps[0].1, env, fuel) {
            Err(e) => Err(e),
            Ok(r) => match resolve_props_model(ps.drop_first(), env, fuel) {
                Err(e) => Err(e),
                Ok(rest) => Ok(seq![(ps[0].0, r)] + rest),
            },
        }
    }
}

/// A resolved schema holds no reference node.
pub open spec fn fully_resolved(s: SchemaModel) -> bool
    decreases s,
{
    match s {
        SchemaModel::Primitive(_) => true,
        SchemaModel::Reference(_) => false,
        SchemaModel::Array(b) => fully_resolved(*b),
        SchemaModel::Object(ps) => fully_resolved_props(ps),
    }
}

/// Every property schema of the list is fully resolved.
pub open spec fn fully_resolved_props(ps: Seq<(Seq<char>, SchemaModel)>) -> bool
    decreases ps,
{
    ps.len() == 0 || (fully_resolved(ps[0].1) && fully_resolved_props(ps.drop_first()))
}

/// What resolution promises: a schema it returns holds no reference
/// node — every reference was replaced by its (recursively resolved)
/// target.
pub proof fn lemma_resolve_fully_resolved(
    s: SchemaModel,
    env: Seq<(Seq<char>, SchemaModel)>,
    fuel: nat,
)
    ensures
        resolve_model(s, env, fuel) matches Ok(rm) ==> fully_resolved(rm),
    decreases fuel, s,
{
    match s {
        SchemaModel::Primitive(_) => {},
        SchemaModel::Reference(n) => {
            if fuel > 0 {
                match lookup_model(env, n) {
                    None => {},
                    Some(t) => {
                        lemma_resolve_fully_resolved(t, env, (fuel - 1) as nat);
                    },
                }
            }
        },
        SchemaModel::Array(b) => {
            lemma_resolve_fully_resolved(*b, env, fuel);
        },
        SchemaModel::Object(ps) => {
            lemma_resolve_props_fully_resolved(ps, env, fuel);
        },
    }
}

/// Pointwise form of `lemma_resolve_fully_resolved` for property lists.
pub proof fn lemma_resolve_props_fully_resolved(
    ps: Seq<(Seq<char>, SchemaModel)>,
    env: Seq<(Seq<char>, SchemaModel)>,
    fuel: nat,
)
    ensures
        resolve_props_model(ps, env, fuel) matches Ok(rs) ==> fully_resolved_props(rs),
    decreases fuel, ps,
{
    if ps.len() > 0 {
        lemma_resolve_fully_resolved(ps[0].1, env, fuel);
        lemma_resolve_props_fully_resolved(ps.drop_first(), env, fuel);
        match resolve_model(ps[0].1, env, fuel) {
            Ok(r) => {
                match resolve_props_model(ps.drop_first(), env, fuel) {
                    Ok(rest) => {
                        assert((seq![(ps[0].0, r)] + rest)[0] == (ps[0].0, r));
                        assert((seq![(ps[0].0, r)] + rest).drop_first() =~= rest);
                    },
                    Err(_) => {},
                }
            },
            Err(_) => {},
        }
    }
}

/// The first component under `name`, as the resolver reads it.
fn lookup_from<'a>(schemas: &'a Vec<NamedSchema>, i: usize, name: &String) -> (r: Option<
    &'a Schema,
>)
    requires
        i <= schemas@.len(),
    ensures
        match r {
            Some(s) => lookup_model(env_model(schemas@).skip(i as int), name@) == Some(s.model()),
            None => lookup_model(env_model(schemas@).skip(i as int), name@) is None,
        },
    decreases schemas@.len() - i,
{
    if i == schemas.len() {
        proof {
            assert(env_model(schemas@).skip(i as int) =~= Seq::empty());
        }
        None
    } else {
        proof {
            assert(env_model(schemas@).skip(i as int)[0] == schemas@[i as int].model());
            assert(env_model(schemas@).skip(i as int).drop_first() =~= env_model(schemas@).skip(
                i as int + 1,
            ));
        }
        if schemas[i].name == *name {
            Some(&schemas[i].schema)
        } else {
            lookup_from(schemas, i + 1, name)
        }
    }
}

/// Chain a resolved prefix onto the outcome for the rest of a property
/// list: an error passes through, a success is appended.
pub open spec fn chain_props(
    prefix: Seq<(Seq<char>, SchemaModel)>,
    rest: Result<Seq<(Seq<char>, SchemaModel)>, ResolveErrorModel>,
) -> Result<Seq<(Seq<char>, SchemaModel)>, ResolveErrorModel> {
    match rest {
        Err(e) => Err(e),
        Ok(r) => Ok(prefix + r),
    }
}

/// Resolve `s` against the component table, following at most `fuel`
/// reference links. Returns the schema with every reference replaced by
/// its (recursively resolved) target, or the first failure.
#[verifier::loop_isolation(false)]
pub fn resolve_schema(s: &Schema, schemas: &Vec<NamedSchema>, fuel: usize) -> (r: Result<
    Schema,
    ResolveError,
>)
    ensures
        match r {
            Ok(out) => resolve_model(s.model(), env_model(schemas@), fuel as nat) == Ok::<
                _,
                ResolveErrorModel,
            >(out.model()),
            Err(e) => resolve_model(s.model(), env_model(schemas@), fuel as nat) == Err::<
                SchemaModel,
                _,
            >(e.model()),
        },
    decreases fuel, *s,
{
    match s {
        Schema::Primitive(t) => Ok(Schema::Primitive(clone_string(t))),
        Schema::Reference(n) => {
            if fuel == 0 {
                Err(ResolveError::TooDeep)
            } else {
                proof {
                    assert(env_model(schemas@).skip(0) =~= env_model(schemas@));
                }
                match lookup_from(schemas, 0, n) {
                    None => Err(ResolveError::Missing(clone_string(n))),
                    Some(t) => resolve_schema(t, schemas, fuel - 1),
                }
            }
        },
        Schema::Array(b) => {
            match resolve_schema(&**b, schemas, fuel) {
                Ok(inner) => Ok(Schema::Array(Box::new(inner))),
                Err(e) => Err(e),
            }
        },
        Schema::Object(props) => {
            let ghost pm = Schema::props_model(props@);
            let ghost env = env_model(schemas@);
            let mut out: Vec<Property> = Vec::new();
            let mut i: usize = 0;
            proof {
                lemma_props_model_index(props@);
                assert(pm.skip(0) =~= pm);
                assert(Schema::props_model(out@) =~= Seq::empty());
            }
            while i < props.len()
                invariant
                    i <= props@.len(),
                    pm == Schema::props_model(props@),
                    env == env_model(schemas@),
                    pm.len() == props@.len(),
                    forall|j: int|
                        0 <= j < props@.len() ==> pm[j] == (
                            props@[j].name@,
                            props@[j].schema.model(),
                        ),
                    resolve_props_model(pm, env, fuel as nat) == chain_props(
                        Schema::props_model(out@),
                        resolve_props_model(pm.skip(i as int), env, fuel as nat),
                    ),
                decreases props@.len() - i,
            {
                let ghost out0 = out@;
                proof {
                    assert(*s == Schema::Object(*props));
                    assert(decreases_to!(*s => (*s)->Object_0));
                    assert((*s)->Object_0 == *props);
                    assert(decreases_to!(*props => props@));
                    assert(decreases_to!(props@ => props@[i as int]));
                    assert(decreases_to!(props@[i as int] => props@[i as int].schema));
                    assert(decreases_to!(*s => props@[i as int].schema));
                }
                match resolve_schema(&props[i].schema, schemas, fuel) {
                    Err(e) => {
                        proof {
                            assert(pm.skip(i as int)[0] == pm[i as int]);
                            assert(resolve_props_model(pm.skip(i as int), env, fuel as nat)
                                == Err::<Seq<(Seq<char>, SchemaModel)>, _>(e.model()));
                            assert(resolve_props_model(pm, env, fuel as nat) == Err::<
                                Seq<(Seq<char>, SchemaModel)>,
                                _,
                            >(e.model()));
                            assert(s.model() == SchemaModel::Object(pm));
                        }
                        return Err(e);
                    },
                    Ok(rs) => {
                        let name = clone_string(&props[i].name);
                        let p = Property { name, schema: rs };
                        let ghost pg = p;
                        out.push(p);
                        proof {
                            assert(out@ == out0.push(pg));
                            lemma_props_model_push(out0, pg);
                            assert(pm.skip(i as int) =~= seq![pm[i as int]] + pm.skip(
                                i as int + 1,
                            ));
                            lemma_chain_props_shift(
                                Schema::props_model(out0),
                                pm[i as int],
                                pg.schema.model(),
                                pm.skip(i as int + 1),
                                env,
                                fuel as nat,
                            );
                        }
                        i = i + 1;
                    },
                }
            }
            proof {
                assert(pm.skip(i as int) =~= Seq::empty());
                assert(Schema::props_model(out@) + Seq::<
                    (Seq<char>, SchemaModel),
                >::empty() =~= Schema::props_model(out@));
            }
            Ok(Schema::Object(out))
        },
    }
}

/// Appending one property models as appending its model.
pub proof fn lemma_props_model_push(ps: Seq<Property>, p: Property)
    ensures
        Schema::props_model(ps.push(p)) == Schema::props_model(ps) + seq![
            (p.name@, p.schema.model()),
        ],
    decreases ps.len(),
{
    lemma_props_model_index(ps.push(p));
    lemma_props_model_index(ps);
    assert(Schema::props_model(ps.push(p)) =~= Schema::props_model(ps) + seq![
        (p.name@, p.schema.model()),
    ]);
}

/// Moving one successfully resolved property from the remainder to the
/// prefix keeps the chained outcome.
proof fn lemma_chain_props_shift(
    prefix: Seq<(Seq<char>, SchemaModel)>,
    head: (Seq<char>, SchemaModel),
    head_resolved: SchemaModel,
    rest: Seq<(Seq<char>, SchemaModel)>,
    env: Seq<(Seq<char>, SchemaModel)>,
    fuel: nat,
)
    requires
        resolve_model(head.1, env, fuel) == Ok::<_, ResolveErrorModel>(head_resolved),
    ensures
        chain_props(prefix, resolve_props_model(seq![head] + rest, env, fuel)) == chain_props(
            prefix + seq![(head.0, head_resolved)],
            resolve_props_model(rest, env, fuel),
        ),
{
    let whole = seq![head] + rest;
    assert(whole[0] == head);
    assert(whole.drop_first() =~= rest);
    match resolve_props_model(rest, env, fuel) {
        Err(e) => {},
        Ok(r) => {
            assert(prefix + (seq![(head.0, head_resolved)] + r) =~= (prefix + seq![
                (head.0, head_resolved),
            ]) + r);
        },
    }
}

/// A string copy whose characters are those of the original.
/// (`String::clone` carries this contract in the standard library
/// specifications.)
pub fn clone_string(s: &String) -> (r: String)
    ensures
        r@ == s@,
{
    s.clone()
}

} // verus!
