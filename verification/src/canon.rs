//! The canonical textual form of a resolved schema: an indented,
//! YAML-like layout with a stable key order (document order), so that
//! identical schemas always serialize to identical line sequences.

use vstd::prelude::*;
use vstd::string::StringExecFns;
use crate::schema::Schema;
use crate::schema::SchemaModel;
use crate::schema::lemma_props_model_index;
use crate::text::lemma_lines_model_push;
use crate::text::lines_model;
use crate::text::sp;
use crate::text::spaces;

verus! {

/// The deepest indentation the serializer lays out; a schema nested
/// beyond it cannot be rendered and is rejected.
pub const MAX_INDENT: usize = 1000000;

/// A schema too deeply nested for the canonical layout.
#[derive(Clone, Copy, Debug, PartialEq, Eq, Structural)]
pub struct SerializationError;

/// The canonical lines of a schema at indentation `ind`, in order.
pub open spec fn canon_lines(s: SchemaModel, ind: nat) -> Seq<Seq<char>>
    decreases s,
{
    match s {
        SchemaModel::Primitive(t) => seq![sp(ind) + "type: "@ + t],
        SchemaModel::Reference(n) => seq![sp(ind) + "$ref: "@ + n],
        SchemaModel::Array(b) => seq![sp(ind) + "type: array"@, sp(ind) + "items:"@]
            + canon_lines(*b, ind + 2),
        SchemaModel::Object(ps) => if ps.len() == 0 {
            seq![sp(ind) + "type: object"@]
        } else {
            seq![sp(ind) + "type: object"@, sp(ind) + "properties:"@] + canon_props(ps, ind + 2)
        },
    }
}

/// The canonical lines of a property list: for each property its name
/// line, then the lines of its schema, two spaces deeper.
pub open spec fn canon_props(ps: Seq<(Seq<char>, SchemaModel)>, ind: nat) -> Seq<Seq<char>>
    decreases ps,
{
    if ps.len() == 0 {
        Seq::empty()
    } else {
        seq![sp(ind) + ps[0].0 + ":"@] + canon_lines(ps[0].1, ind + 2) + canon_props(
            ps.drop_first(),
            ind,
        )
    }
}

/// Whether the canonical layout of `s` at indentation `ind` stays within
/// `MAX_INDENT`.
pub open spec fn fits(s: SchemaModel, ind: nat) -> bool
    decreases s,
{
    match s {
        SchemaModel::Primitive(_) => true,
        SchemaModel::Reference(_) => true,
        SchemaModel::Array(b) => ind + 2 <= MAX_INDENT && fits(*b, ind + 2),
        SchemaModel::Object(ps) => ps.len() == 0 || (ind + 4 <= MAX_INDENT && fits_props(
            ps,
            ind + 2,
        )),
    }
}

/// Whether every property schema of the list fits, its lines two spaces
/// deeper than its name line.
pub open spec fn fits_props(ps: Seq<(Seq<char>, SchemaModel)>, ind: nat) -> bool
    decreases ps,
{
    ps.len() == 0 || (fits(ps[0].1, ind + 2) && fits_props(ps.drop_first(), ind))
}

/// A line of `ind` spaces and one literal part.
fn line2(ind: usize, a: &str) -> (r: String)
    ensures
        r@ == sp(ind as nat) + a@,
{
    let mut r = spaces(ind);
    r.append(a);
    r
}

/// A line of `ind` spaces and two parts.
fn line3(ind: usize, a: &str, b: &str) -> (r: String)
    ensures
        r@ == sp(ind as nat) + a@ + b@,
{
    let mut r = spaces(ind);
    r.append(a);
    r.append(b);
    r
}

/// Append the canonical lines of `s` at indentation `ind` to `out`;
/// reject a schema whose layout would pass `MAX_INDENT`.
#[verifier::loop_isolation(false)]
fn serialize_into(s: &Schema, ind: usize, out: &mut Vec<String>) -> (r: Result<
    (),
    SerializationError,
>)
    requires
        ind <= MAX_INDENT,
    ensures
        r is Ok <==> fits(s.model(), ind as nat),
        r is Ok ==> lines_model(final(out)@) == lines_model(old(out)@) + canon_lines(
            s.model(),
            ind as nat,
        ),
    decreases *s,
{
    match s {
        Schema::Primitive(t) => {
            out.push(line3(ind, "type: ", t.as_str()));
            proof {
                assert(lines_model(out@) =~= lines_model(old(out)@) + canon_lines(
                    s.model(),
                    ind as nat,
                ));
            }
            Ok(())
        },
        Schema::Reference(n) => {
            out.push(line3(ind, "$ref: ", n.as_str()));
            proof {
                assert(lines_model(out@) =~= lines_model(old(out)@) + canon_lines(
                    s.model(),
                    ind as nat,
                ));
            }
            Ok(())
        },
        Schema::Array(b) => {
            if ind + 2 > MAX_INDENT {
                return Err(SerializationError);
            }
            out.push(line2(ind, "type: array"));
            out.push(line2(ind, "items:"));
            match serialize_into(&**b, ind + 2, out) {
                Err(e) => Err(e),
                Ok(u) => {
                    proof {
                        assert(lines_model(out@) =~= lines_model(old(out)@) + canon_lines(
                            s.model(),
                            ind as nat,
                        ));
                    }
                    Ok(u)
                },
            }
        },
        Schema::Object(props) => {
            if props.len() == 0 {
                out.push(line2(ind, "type: object"));
                proof {
                    assert(Schema::props_model(props@).len() == 0) by {
                        lemma_props_model_index(props@);
                    }
                    assert(lines_model(out@) =~= lines_model(old(out)@) + canon_lines(
                        s.model(),
                        ind as nat,
                    ));
                }
                return Ok(());
            }
            if ind + 4 > MAX_INDENT {
                proof {
                    assert(Schema::props_model(props@).len() > 0) by {
                        lemma_props_model_index(props@);
                    }
                }
                return Err(SerializationError);
            }
            out.push(line2(ind, "type: object"));
            out.push(line2(ind, "properties:"));
            let ghost pm = Schema::props_model(props@);
            let ghost led = lines_model(out@);
            let ghost mut prefix: Seq<Seq<char>> = Seq::empty();
            let ind2 = ind + 2;
            proof {
                lemma_props_model_index(props@);
                assert(pm.skip(0) =~= pm);
                assert(lines_model(out@) =~~= led + prefix);
            }
            let mut i: usize = 0;
            while i < props.len()
                invariant
                    i <= props@.len(),
                    lines_model(out@) == led + prefix,
                    canon_props(pm, ind2 as nat) == prefix + canon_props(
                        pm.skip(i as int),
                        ind2 as nat,
                    ),
                    fits_props(pm, ind2 as nat) <==> fits_props(pm.skip(i as int), ind2 as nat),
                decreases props@.len() - i,
            {
                let ghost prefix0 = prefix;
                proof {
                    assert(decreases_to!(*s => (*s)->Object_0));
                    assert((*s)->Object_0 == *props);
                    assert(decreases_to!(*props => props@));
                    assert(decreases_to!(props@ => props@[i as int]));
                    assert(decreases_to!(props@[i as int] => props@[i as int].schema));
                    assert(decreases_to!(*s => props@[i as int].schema));
                    assert(pm.skip(i as int)[0] == pm[i as int]);
                    assert(pm.skip(i as int).drop_first() =~= pm.skip(i as int + 1));
                }
                let nameline = line3(ind2, props[i].name.as_str(), ":");
                let ghost ng = nameline;
                let ghost outpre = out@;
                out.push(nameline);
                proof {
                    assert(out@ == outpre.push(ng));
                    lemma_lines_model_push(outpre, ng);
                    prefix = prefix + seq![ng@];
                    assert(lines_model(out@) =~= led + prefix);
                }
                match serialize_into(&props[i].schema, ind2 + 2, out) {
                    Err(e) => {
                        return Err(e);
                    },
                    Ok(_) => {
                        proof {
                            let ghost prefix1 = prefix;
                            prefix = prefix + canon_lines(pm[i as int].1, ind2 as nat + 2);
                            assert(lines_model(out@) =~~= led + prefix);
                            assert(prefix0 + canon_props(pm.skip(i as int), ind2 as nat) =~= prefix
                                + canon_props(pm.skip(i as int + 1), ind2 as nat));
                        }
                        i = i + 1;
                    },
                }
            }
            proof {
                assert(pm.skip(props@.len() as int) =~= Seq::empty());
                assert(prefix + canon_props(pm.skip(props@.len() as int), ind2 as nat) =~= prefix);
                assert(lines_model(out@) =~= lines_model(old(out)@) + canon_lines(
                    s.model(),
                    ind as nat,
                ));
            }
            Ok(())
        },
    }
}

/// The canonical serialization of `s`: its lines in order, or a
/// rejection when the layout would nest past `MAX_INDENT`.
pub fn serialize_schema(s: &Schema) -> (r: Result<Vec<String>, SerializationError>)
    ensures
        r is Ok <==> fits(s.model(), 0),
        r is Ok ==> lines_model(r.unwrap()@) == canon_lines(s.model(), 0),
{
    let mut out: Vec<String> = Vec::new();
    match serialize_into(s, 0, &mut out) {
        Ok(_) => {
            proof {
                assert(lines_model(Seq::<String>::empty()) =~= Seq::<Seq<char>>::empty());
                assert(Seq::<Seq<char>>::empty() + canon_lines(s.model(), 0) =~= canon_lines(
                    s.model(),
                    0,
                ));
            }
            Ok(out)
        },
        Err(e) => Err(e),
    }
}

} // verus!
