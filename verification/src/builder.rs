//! The highlighted-document builder: from the active operation and the
//! document to an ordered, styled, line-numbered line sequence — or to
//! an explicit error, with no partial result.

use vstd::prelude::*;
use vstd::string::StringExecFns;
use crate::canon::SerializationError;
use crate::canon::canon_lines;
use crate::canon::fits;
use crate::canon::serialize_schema;
use crate::highlight::HighlightError;
use crate::highlight::highlight_yaml;
use crate::highlight::yaml_ok_of;
use crate::highlight::yaml_styles_of;
use crate::schema::MediaEntry;
use crate::schema::NamedSchema;
use crate::schema::Operation;
use crate::schema::RequestBody;
use crate::schema::ResolveError;
use crate::schema::ResolveErrorModel;
use crate::schema::Schema;
use crate::schema::SchemaModel;
use crate::schema::MAX_RESOLVE_DEPTH;
use crate::schema::env_model;
use crate::schema::resolve_model;
use crate::schema::resolve_schema;
use crate::style::Fragment;
use crate::style::Style;
use crate::style::cache_model;
use crate::style::frags_text;
use crate::style::line_model;
use crate::text::gutter_model;
use crate::text::gutter_text;
use crate::text::join_lines;
use crate::text::join_nl;
use crate::text::line_count;
use crate::text::split_lines;

verus! {

/// Why a cache rebuild failed: a reference did not resolve, the
/// resolved schema could not be laid out, or highlighting failed.
#[derive(Clone, Debug, PartialEq, Eq)]
pub enum BuildError {
    Reference(ResolveError),
    Serialization(SerializationError),
    Highlight(HighlightError),
}

/// The mathematical value of a rebuild error.
pub enum BuildErrorModel {
    Reference(ResolveErrorModel),
    Serialization,
    Highlight,
}

impl BuildError {
    /// The mathematical value of this error.
    pub open spec fn model(self) -> BuildErrorModel {
        match self {
            BuildError::Reference(e) => BuildErrorModel::Reference(e.model()),
            BuildError::Serialization(_) => BuildErrorModel::Serialization,
            BuildError::Highlight(_) => BuildErrorModel::Highlight,
        }
    }
}

/// The media type whose content the request pane renders.
pub open spec fn json_media() -> Seq<char> {
    "application/json"@
}

/// The schema of the first content entry under `key`, if any.
pub open spec fn media_lookup(entries: Seq<MediaEntry>, key: Seq<char>) -> Option<SchemaModel>
    decreases entries.len(),
{
    if entries.len() == 0 {
        None
    } else if entries[0].media_type@ == key {
        Some(entries[0].schema.model())
    } else {
        media_lookup(entries.drop_first(), key)
    }
}

/// The JSON request schema of an operation, if any.
pub open spec fn op_json_schema(op: Operation) -> Option<SchemaModel> {
    match op.request_body {
        None => None,
        Some(rb) => media_lookup(rb.content@, json_media()),
    }
}

/// The canonical text of a resolved schema, newline-terminated.
pub open spec fn render_text(m: SchemaModel) -> Seq<char> {
    join_nl(canon_lines(m, 0))
}

/// The styled lines decorated with the one-based line-number gutter.
pub open spec fn decorate(ls: Seq<Seq<(Style, Seq<char>)>>) -> Seq<Seq<(Style, Seq<char>)>> {
    Seq::new(ls.len(), |i: int| seq![(Style::spec_dimmed(), gutter_model((i + 1) as nat))] + ls[i])
}

/// The cache a successful rebuild installs for the resolved schema `m`.
pub open spec fn rendered_cache(m: SchemaModel) -> Seq<Seq<(Style, Seq<char>)>> {
    decorate(yaml_styles_of(render_text(m)))
}

/// The first content entry of the body under media type `key`.
fn media_schema_for<'a>(rb: &'a RequestBody, i: usize, key: &String) -> (r: Option<&'a Schema>)
    requires
        i <= rb.content@.len(),
    ensures
        match r {
            Some(s) => media_lookup(rb.content@.skip(i as int), key@) == Some(s.model()),
            None => media_lookup(rb.content@.skip(i as int), key@) is None,
        },
    decreases rb.content@.len() - i,
{
    if i == rb.content.len() {
        proof {
            assert(rb.content@.skip(i as int) =~= Seq::empty());
        }
        None
    } else {
        proof {
            assert(rb.content@.skip(i as int)[0] == rb.content@[i as int]);
            assert(rb.content@.skip(i as int).drop_first() =~= rb.content@.skip(i as int + 1));
        }
        if rb.content[i].media_type == *key {
            Some(&rb.content[i].schema)
        } else {
            media_schema_for(rb, i + 1, key)
        }
    }
}

/// Build the highlighted line sequence for the active operation: empty
/// when no operation is selected or it has no JSON request content;
/// otherwise the operation's schema, resolved against the document,
/// canonically serialized, highlighted, and line-numbered. Any failure
/// is returned as an error and yields no partial result.
pub fn build_request_cache(op: Option<&Operation>, schemas: &Vec<NamedSchema>) -> (r: Result<
    Vec<Vec<Fragment>>,
    BuildError,
>)
    ensures
        build_outcome_ok(
            match op {
                Some(o) => op_json_schema(*o),
                None => None,
            },
            env_model(schemas@),
            r,
        ),
{
    let o = match op {
        None => {
            return Ok(Vec::new());
        },
        Some(o) => o,
    };
    let rb = match &o.request_body {
        None => {
            return Ok(Vec::new());
        },
        Some(rb) => rb,
    };
    let key = String::from_str("application/json");
    proof {
        assert(rb.content@.skip(0) =~= rb.content@);
        reveal_strlit("application/json");
        assert(key@ == json_media());
    }
    let sref = match media_schema_for(rb, 0, &key) {
        None => {
            return Ok(Vec::new());
        },
        Some(s) => s,
    };
    let resolved = match resolve_schema(sref, schemas, MAX_RESOLVE_DEPTH) {
        Err(e) => {
            return Err(BuildError::Reference(e));
        },
        Ok(x) => x,
    };
    let ghost rm = resolved.model();
    let lines = match serialize_schema(&resolved) {
        Err(e) => {
            return Err(BuildError::Serialization(e));
        },
        Ok(l) => l,
    };
    let text = join_lines(&lines);
    proof {
        assert(text@ == render_text(rm));
    }
    let mut styled = match highlight_yaml(text.as_str()) {
        Err(e) => {
            return Err(BuildError::Highlight(e));
        },
        Ok(s) => s,
    };
    let ghost base = styled@;
    let mut i: usize = 0;
    while i < styled.len()
        invariant
            i <= styled@.len(),
            styled@.len() == base.len(),
            forall|j: int| i <= j < base.len() ==> styled@[j] == base[j],
            forall|j: int|
                0 <= j < i ==> line_model(styled@[j]@) == seq![
                    (Style::spec_dimmed(), gutter_model((j + 1) as nat)),
                ] + line_model(base[j]@),
        decreases styled@.len() - i,
    {
        let g = gutter_text(i + 1);
        let frag = Fragment { style: Style::dimmed(), text: g };
        let ghost fg = frag;
        let ghost linepre = styled@[i as int]@;
        let line = &mut styled[i];
        line.insert(0, frag);
        proof {
            assert(line@ == linepre.insert(0, fg));
            assert(line_model(linepre.insert(0, fg)) =~= seq![fg.model()] + line_model(linepre));
        }
        i = i + 1;
    }
    proof {
        assert(cache_model(styled@) =~= decorate(cache_model(base)));
        assert forall|i: int|
            0 <= i < styled@.len() implies frags_text(
            (#[trigger] cache_model(styled@)[i]).drop_first(),
        ) == split_lines(render_text(rm))[i] by {
            assert(cache_model(styled@)[i].drop_first() =~= cache_model(base)[i]);
        };
    }
    Ok(styled)
}

/// Whether a rebuild from the selected schema `sel` against the
/// component table `env` succeeds: with nothing renderable selected it
/// always does; otherwise resolution and layout must succeed and the
/// highlighter accept the canonical text.
pub open spec fn rebuild_ok(sel: Option<SchemaModel>, env: Seq<(Seq<char>, SchemaModel)>) -> bool {
    match sel {
        None => true,
        Some(m) => match resolve_model(m, env, MAX_RESOLVE_DEPTH as nat) {
            Err(_) => false,
            Ok(rm) => fits(rm, 0) && yaml_ok_of(render_text(rm)),
        },
    }
}

/// The exact error of a failed rebuild: `Reference` with the
/// resolution error iff resolution failed, `Serialization` iff the
/// resolved schema does not fit the canonical layout, `Highlight` iff
/// the highlighter rejects the canonical text. Holds of no outcome
/// when the rebuild is owed success.
pub open spec fn rebuild_error_matches(
    sel: Option<SchemaModel>,
    env: Seq<(Seq<char>, SchemaModel)>,
    e: BuildError,
) -> bool {
    match sel {
        None => false,
        Some(m) => match resolve_model(m, env, MAX_RESOLVE_DEPTH as nat) {
            Err(re) => e.model() == BuildErrorModel::Reference(re),
            Ok(rm) => if !fits(rm, 0) {
                e.model() == BuildErrorModel::Serialization
            } else {
                !yaml_ok_of(render_text(rm)) && e.model() == BuildErrorModel::Highlight
            },
        },
    }
}

/// What a rebuild outcome means for a selected schema `sel` against the
/// component table `env`. Success is owed exactly when `rebuild_ok`
/// holds; it yields an empty cache when nothing renderable is
/// selected, else the rendered, line-numbered cache, one row per line
/// of the canonical text, each row's fragment texts after the gutter
/// concatenating to its line. A failure carries exactly the error of
/// the stage that failed.
pub open spec fn build_outcome_ok(
    sel: Option<SchemaModel>,
    env: Seq<(Seq<char>, SchemaModel)>,
    r: Result<Vec<Vec<Fragment>>, BuildError>,
) -> bool {
    match r {
        Ok(v) => rebuild_ok(sel, env) && match sel {
            None => v@.len() == 0,
            Some(m) => match resolve_model(m, env, MAX_RESOLVE_DEPTH as nat) {
                Err(_) => false,
                Ok(rm) => cache_model(v@) == rendered_cache(rm) && v@.len() == line_count(
                    render_text(rm),
                ) && forall|i: int|
                    0 <= i < v@.len() ==> frags_text(
                        (#[trigger] cache_model(v@)[i]).drop_first(),
                    ) == split_lines(render_text(rm))[i],
            },
        },
        Err(e) => rebuild_error_matches(sel, env, e),
    }
}

} // verus!
