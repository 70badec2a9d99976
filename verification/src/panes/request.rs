//! The request pane: renders the JSON request schema of the active
//! operation as highlighted, line-numbered, scrollable text.

use vstd::prelude::*;
use crate::action::Action;
use crate::action::KeyEvent;
use crate::action::MouseEvent;
use crate::action::scroll_step;
use crate::builder::BuildError;
use crate::builder::build_request_cache;
use crate::builder::rebuild_error_matches;
use crate::builder::rebuild_ok;
use crate::builder::render_text;
use crate::builder::rendered_cache;
use crate::canon::fits;
use crate::schema::MAX_RESOLVE_DEPTH;
use crate::schema::MediaEntry;
use crate::schema::RequestBody;
use crate::schema::clone_string;
use crate::schema::resolve_model;
use crate::state::State;
use crate::style::BorderKind;
use crate::style::Fragment;
use crate::style::Style;
use crate::style::cache_model;
use crate::style::frags_text;
use crate::text::lemma_lines_model_push;
use crate::text::line_count;
use crate::text::lines_model;
use crate::text::split_lines;

verus! {

/// The media types of a request body, in document order.
pub open spec fn media_names(rb: RequestBody) -> Seq<Seq<char>> {
    rb.content@.map(|i: int, e: MediaEntry| e.media_type@)
}

/// The request pane: its focus flag, the border style it shows while
/// focused, a summary of the active request body (for the media-type
/// tab row), the scroll cursor, and the render cache.
pub struct RequestPane {
    pub focused: bool,
    pub focused_border_style: Style,
    pub has_body: bool,
    pub media_types: Vec<String>,
    pub request_schema_line_offset: usize,
    pub request_schema_styles: Vec<Vec<Fragment>>,
}

impl RequestPane {
    /// The scroll cursor stays inside a nonempty cache, and at zero on
    /// an empty one.
    pub open spec fn cursor_ok(self) -> bool {
        if self.request_schema_styles@.len() == 0 {
            self.request_schema_line_offset == 0
        } else {
            (self.request_schema_line_offset as int) < self.request_schema_styles@.len()
        }
    }

    /// The pane agrees with `state`, as after a successful `Update`:
    /// the cache is exactly the rendered form of the selected schema
    /// (empty when nothing renderable is selected), with one row per
    /// line of the canonical text, each row's fragment texts after the
    /// gutter concatenating to its line; the cursor is reset; and the
    /// body summary matches the active operation.
    pub open spec fn synced_with(self, state: State) -> bool {
        &&& self.request_schema_line_offset == 0
        &&& match state.selected_schema() {
            None => self.request_schema_styles@.len() == 0,
            Some(m) => match resolve_model(m, state.document.env(), MAX_RESOLVE_DEPTH as nat) {
                Ok(rm) => fits(rm, 0) && cache_model(self.request_schema_styles@)
                    == rendered_cache(rm) && self.request_schema_styles@.len() == line_count(
                    render_text(rm),
                ) && forall|i: int|
                    0 <= i < self.request_schema_styles@.len() ==> frags_text(
                        (#[trigger] cache_model(self.request_schema_styles@)[i]).drop_first(),
                    ) == split_lines(render_text(rm))[i],
                Err(_) => false,
            },
        }
        &&& match state.active() {
            Some(o) => match o.request_body {
                Some(rb) => self.has_body && lines_model(self.media_types@) == media_names(rb),
                None => !self.has_body && self.media_types@.len() == 0,
            },
            None => !self.has_body && self.media_types@.len() == 0,
        }
    }

    /// A fresh pane: empty cache, cursor at zero, no body summary.
    pub fn new(focused: bool, focused_border_style: Style) -> (r: RequestPane)
        ensures
            r.focused == focused,
            r.focused_border_style == focused_border_style,
            !r.has_body,
            r.media_types@.len() == 0,
            r.request_schema_line_offset == 0,
            r.request_schema_styles@.len() == 0,
            r.cursor_ok(),
    {
        RequestPane {
            focused,
            focused_border_style,
            has_body: false,
            media_types: Vec::new(),
            request_schema_line_offset: 0,
            request_schema_styles: Vec::new(),
        }
    }

    /// Nothing to prepare before the first draw.
    pub fn init(&mut self) -> (r: Result<(), BuildError>)
        ensures
            *final(self) == *old(self),
            r is Ok,
    {
        Ok(())
    }

    /// Take the focus.
    pub fn focus(&mut self)
        ensures
            *final(self) == (RequestPane { focused: true, ..*old(self) }),
    {
        self.focused = true;
    }

    /// Give the focus up.
    pub fn unfocus(&mut self)
        ensures
            *final(self) == (RequestPane { focused: false, ..*old(self) }),
    {
        self.focused = false;
    }

    /// Key input is handled at the controller; the pane itself maps no
    /// key to an intent and mutates nothing.
    pub fn handle_key_events(&mut self, _key: KeyEvent) -> (r: Option<Action>)
        ensures
            *final(self) == *old(self),
            r is None,
    {
        None
    }

    /// Mouse input is handled at the controller; the pane itself maps
    /// no mouse event to an intent and mutates nothing.
    pub fn handle_mouse_events(&mut self, _mouse: MouseEvent) -> (r: Option<Action>)
        ensures
            *final(self) == *old(self),
            r is None,
    {
        None
    }

    /// Apply one action. `Up` and `Down` move the scroll cursor within
    /// the cache; `Update` rebuilds the cache from `state`, installing
    /// nothing — not even a cleared cache — when the rebuild fails;
    /// every other action changes nothing. No follow-up action is ever
    /// emitted.
    pub fn update(&mut self, action: Action, state: &State) -> (r: Result<Option<Action>, BuildError>)
        requires
            old(self).cursor_ok(),
        ensures
            final(self).cursor_ok(),
            r matches Ok(f) ==> f is None,
            final(self).focused == old(self).focused,
            final(self).focused_border_style == old(self).focused_border_style,
            action == Action::Up || action == Action::Down ==> r is Ok && *final(self) == (
            RequestPane {
                request_schema_line_offset: scroll_step(
                    old(self).request_schema_line_offset as nat,
                    old(self).request_schema_styles@.len(),
                    action,
                ) as usize,
                ..*old(self)
            }),
            action == Action::Submit ==> r is Ok && *final(self) == *old(self),
            action == Action::Update ==> update_outcome(*old(self), *final(self), *state, r),
    {
        match action {
            Action::Update => {
                let op = state.active_operation();
                let new_cache = match build_request_cache(op, &state.document.schemas) {
                    Err(e) => {
                        return Err(e);
                    },
                    Ok(c) => c,
                };
                let mut hb: bool = false;
                let mut media: Vec<String> = Vec::new();
                match op {
                    Some(o) => {
                        match &o.request_body {
                            Some(rb) => {
                                hb = true;
                                media = media_names_vec(rb);
                            },
                            None => {},
                        }
                    },
                    None => {},
                }
                self.request_schema_styles = new_cache;
                self.request_schema_line_offset = 0;
                self.has_body = hb;
                self.media_types = media;
                Ok(None)
            },
            Action::Down => {
                let len = self.request_schema_styles.len();
                if len > 0 {
                    let cur = self.request_schema_line_offset;
                    if cur + 1 < len {
                        self.request_schema_line_offset = cur + 1;
                    } else {
                        self.request_schema_line_offset = len - 1;
                    }
                }
                Ok(None)
            },
            Action::Up => {
                if self.request_schema_line_offset > 0 {
                    self.request_schema_line_offset = self.request_schema_line_offset - 1;
                }
                Ok(None)
            },
            Action::Submit => Ok(None),
        }
    }

    /// The border style is a function of focus alone: the emphasized
    /// style while focused, the default otherwise.
    pub fn border_style(&self) -> (r: Style)
        ensures
            r == if self.focused {
                self.focused_border_style
            } else {
                Style::plain()
            },
    {
        if self.focused {
            self.focused_border_style
        } else {
            Style::default()
        }
    }

    /// The border kind is a function of focus alone: heavy while
    /// focused, plain otherwise.
    pub fn border_type(&self) -> (r: BorderKind)
        ensures
            r == if self.focused {
                BorderKind::Thick
            } else {
                BorderKind::Plain
            },
    {
        if self.focused {
            BorderKind::Thick
        } else {
            BorderKind::Plain
        }
    }
}

/// What an `Update` outcome means. Success is owed exactly when the
/// rebuild succeeds (`rebuild_ok`, a function of the state alone), and
/// then the pane is synchronized with `state`. On failure the pane —
/// its previous cache included — is left untouched, and the error is
/// exactly the stage that failed: `Reference` iff resolution failed,
/// `Serialization` iff the resolved schema cannot be laid out,
/// `Highlight` iff the highlighter rejected the canonical text.
pub open spec fn update_outcome(
    pre: RequestPane,
    post: RequestPane,
    state: State,
    r: Result<Option<Action>, BuildError>,
) -> bool {
    match r {
        Ok(_) => post.synced_with(state) && rebuild_ok(
            state.selected_schema(),
            state.document.env(),
        ),
        Err(e) => post == pre && rebuild_error_matches(
            state.selected_schema(),
            state.document.env(),
            e,
        ),
    }
}

/// The media types of the body, copied in order for the tab row.
fn media_names_vec(rb: &RequestBody) -> (r: Vec<String>)
    ensures
        lines_model(r@) == media_names(*rb),
{
    let mut out: Vec<String> = Vec::new();
    let mut i: usize = 0;
    proof {
        assert(lines_model(out@) =~= media_names(*rb).take(0));
    }
    while i < rb.content.len()
        invariant
            i <= rb.content@.len(),
            lines_model(out@) == media_names(*rb).take(i as int),
        decreases rb.content@.len() - i,
    {
        let s = clone_string(&rb.content[i].media_type);
        let ghost sg = s;
        let ghost outpre = out@;
        out.push(s);
        proof {
            lemma_lines_model_push(outpre, sg);
            assert(lines_model(out@) =~= media_names(*rb).take(i as int + 1));
        }
        i = i + 1;
    }
    proof {
        assert(media_names(*rb).take(rb.content@.len() as int) =~= media_names(*rb));
    }
    out
}

/// Cache consistency: two panes both synchronized with one navigation
/// state hold byte-identical caches, the same cursor, and the same body
/// summary — what a rebuild installs is a pure function of the state.
pub proof fn lemma_cache_consistency(a: RequestPane, b: RequestPane, state: State)
    requires
        a.synced_with(state),
        b.synced_with(state),
    ensures
        cache_model(a.request_schema_styles@) == cache_model(b.request_schema_styles@),
        a.request_schema_line_offset == b.request_schema_line_offset,
        a.has_body == b.has_body,
        lines_model(a.media_types@) == lines_model(b.media_types@),
{
    match state.selected_schema() {
        None => {
            assert(cache_model(a.request_schema_styles@) =~= cache_model(
                b.request_schema_styles@,
            ));
        },
        Some(m) => {},
    }
    match state.active() {
        Some(o) => {
            if o.request_body is None {
                assert(lines_model(a.media_types@) =~= lines_model(b.media_types@));
            }
        },
        None => {
            assert(lines_model(a.media_types@) =~= lines_model(b.media_types@));
        },
    }
}

} // verus!
