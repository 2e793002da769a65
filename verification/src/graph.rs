//! The endpoint table: the controller's record of the live endpoints
//! it has built in the caller's media graph.
//!
//! One endpoint stands for one live media stream: a subgraph consuming
//! a shared-memory transport path and exposing one output pad.  Among
//! live endpoints of one kind, transport paths are unique, and an
//! endpoint is named after its path's final component so a removal,
//! which carries only the path, can find it.

use vstd::prelude::*;
use vstd::string::*;
use crate::media::MediaKind;
use crate::names::{endpoint_name_of, last_component, names_endpoint};

verus! {

/// One live endpoint in the graph.
pub struct Endpoint {
    pub kind: MediaKind,
    pub transport_path: String,
    pub endpoint_name: String,
    pub pad_name: String,
    pub format_descriptor: String,
}

/// The mathematical value of an [`Endpoint`].
pub struct EndpointModel {
    pub kind: MediaKind,
    pub transport_path: Seq<char>,
    pub endpoint_name: Seq<char>,
    pub pad_name: Seq<char>,
    pub format_descriptor: Seq<char>,
}

impl View for Endpoint {
    type V = EndpointModel;

    open spec fn view(&self) -> EndpointModel {
        EndpointModel {
            kind: self.kind,
            transport_path: self.transport_path@,
            endpoint_name: self.endpoint_name@,
            pad_name: self.pad_name@,
            format_descriptor: self.format_descriptor@,
        }
    }
}

impl Endpoint {
    /// The name of the endpoint's transport-reading element: the pad
    /// name under a `shmsrc_` prefix.
    pub fn source_element_name(&self) -> (r: String)
        ensures
            r@ == "shmsrc_"@ + self.pad_name@,
    {
        let mut r = String::from_str("shmsrc_");
        r.append(self.pad_name.as_str());
        r
    }

    /// The name of the endpoint's format-declaring element: the pad
    /// name under a `capsfilter_` prefix.  A format change finds the
    /// endpoint's negotiation element by this name.
    pub fn format_element_name(&self) -> (r: String)
        ensures
            r@ == "capsfilter_"@ + self.pad_name@,
    {
        let mut r = String::from_str("capsfilter_");
        r.append(self.pad_name.as_str());
        r
    }
}

/// `e` is an endpoint of kind `kind` reading transport path `path`.
pub open spec fn on_path(e: EndpointModel, kind: MediaKind, path: Seq<char>) -> bool {
    e.kind == kind && e.transport_path == path
}

/// `e` is an endpoint of kind `kind` exposing pad `pad_name`.
pub open spec fn on_pad(e: EndpointModel, kind: MediaKind, pad_name: Seq<char>) -> bool {
    e.kind == kind && e.pad_name == pad_name
}

/// Some endpoint of kind `kind` reads transport path `path`.
pub open spec fn is_live(t: Seq<EndpointModel>, kind: MediaKind, path: Seq<char>) -> bool {
    exists|i: int| 0 <= i < t.len() && on_path(#[trigger] t[i], kind, path)
}

/// Some endpoint of kind `kind` exposes pad `pad_name`.
pub open spec fn pad_is_live(t: Seq<EndpointModel>, kind: MediaKind, pad_name: Seq<char>) -> bool {
    exists|i: int| 0 <= i < t.len() && on_pad(#[trigger] t[i], kind, pad_name)
}

/// How many endpoints of kind `kind` read transport path `path`.
pub open spec fn live_count(t: Seq<EndpointModel>, kind: MediaKind, path: Seq<char>) -> nat
    decreases t.len(),
{
    if t.len() == 0 {
        0
    } else {
        (if on_path(t.first(), kind, path) {
            1nat
        } else {
            0nat
        }) + live_count(t.drop_first(), kind, path)
    }
}

/// The first endpoint of kind `kind` reading `path`.
pub open spec fn first_live(t: Seq<EndpointModel>, kind: MediaKind, path: Seq<char>) -> EndpointModel
    decreases t.len(),
{
    if t.len() == 0 {
        arbitrary()
    } else if on_path(t.first(), kind, path) {
        t.first()
    } else {
        first_live(t.drop_first(), kind, path)
    }
}

/// The table after dropping the first endpoint of kind `kind` reading
/// `path`; the table itself when none is live.
pub open spec fn remove_first(t: Seq<EndpointModel>, kind: MediaKind, path: Seq<char>) -> Seq<
    EndpointModel,
>
    decreases t.len(),
{
    if t.len() == 0 {
        t
    } else if on_path(t.first(), kind, path) {
        t.drop_first()
    } else {
        seq![t.first()] + remove_first(t.drop_first(), kind, path)
    }
}

/// The table after renegotiating the format of the first endpoint of
/// kind `kind` exposing `pad_name`; the table itself when none is live.
pub open spec fn update_first_pad(
    t: Seq<EndpointModel>,
    kind: MediaKind,
    pad_name: Seq<char>,
    format_descriptor: Seq<char>,
) -> Seq<EndpointModel>
    decreases t.len(),
{
    if t.len() == 0 {
        t
    } else if on_pad(t.first(), kind, pad_name) {
        seq![EndpointModel { format_descriptor, ..t.first() }] + t.drop_first()
    } else {
        seq![t.first()] + update_first_pad(t.drop_first(), kind, pad_name, format_descriptor)
    }
}

/// Well-formed table: every endpoint is named after its path's final
/// component, and no two endpoints of one kind share a transport path.
pub open spec fn wf(t: Seq<EndpointModel>) -> bool {
    &&& forall|i: int|
        0 <= i < t.len() ==> (#[trigger] t[i]).endpoint_name == last_component(
            t[i].transport_path,
        )
    &&& forall|i: int, j: int|
        #![trigger t[i], t[j]]
        0 <= i < j < t.len() && t[i].kind == t[j].kind ==> t[i].transport_path
            != t[j].transport_path
}

/// Dropping a table's first endpoint keeps it well-formed.
pub proof fn lemma_wf_drop_first(t: Seq<EndpointModel>)
    requires
        wf(t),
        t.len() > 0,
    ensures
        wf(t.drop_first()),
{
    let rest = t.drop_first();
    assert forall|i: int| 0 <= i < rest.len() implies (#[trigger] rest[i]).endpoint_name
        == last_component(rest[i].transport_path) by {
        assert(rest[i] == t[i + 1]);
    }
    assert forall|i: int, j: int|
        #![trigger rest[i], rest[j]]
        0 <= i < j < rest.len() && rest[i].kind == rest[j].kind implies rest[i].transport_path
        != rest[j].transport_path by {
        assert(rest[i] == t[i + 1]);
        assert(rest[j] == t[j + 1]);
    }
}

/// Appending an endpoint for a fresh path, named after that path,
/// keeps the table well-formed.
pub proof fn lemma_wf_push(t: Seq<EndpointModel>, e: EndpointModel)
    requires
        wf(t),
        !is_live(t, e.kind, e.transport_path),
        e.endpoint_name == last_component(e.transport_path),
    ensures
        wf(t.push(e)),
{
    let out = t.push(e);
    assert forall|i: int| 0 <= i < out.len() implies (#[trigger] out[i]).endpoint_name
        == last_component(out[i].transport_path) by {
        if i < t.len() {
            assert(out[i] == t[i]);
        }
    }
    assert forall|i: int, j: int|
        #![trigger out[i], out[j]]
        0 <= i < j < out.len() && out[i].kind == out[j].kind implies out[i].transport_path
        != out[j].transport_path by {
        if j == out.len() - 1 {
            assert(!on_path(t[i], e.kind, e.transport_path));
        } else {
            assert(out[i] == t[i]);
            assert(out[j] == t[j]);
        }
    }
}

/// A spec-level format update keeps each position's kind, path and
/// name, so it also keeps the table well-formed.
pub proof fn lemma_update_first_pad_fields(
    t: Seq<EndpointModel>,
    kind: MediaKind,
    pad_name: Seq<char>,
    format_descriptor: Seq<char>,
)
    ensures
        update_first_pad(t, kind, pad_name, format_descriptor).len() == t.len(),
        forall|i: int|
            0 <= i < t.len() ==> ((#[trigger] update_first_pad(
                t,
                kind,
                pad_name,
                format_descriptor,
            )[i]).kind == t[i].kind && update_first_pad(t, kind, pad_name, format_descriptor)[i]
                .transport_path == t[i].transport_path && update_first_pad(
                t,
                kind,
                pad_name,
                format_descriptor,
            )[i].endpoint_name == t[i].endpoint_name),
        wf(t) ==> wf(update_first_pad(t, kind, pad_name, format_descriptor)),
    decreases t.len(),
{
    let out = update_first_pad(t, kind, pad_name, format_descriptor);
    if t.len() > 0 {
        lemma_update_first_pad_fields(t.drop_first(), kind, pad_name, format_descriptor);
        if on_pad(t.first(), kind, pad_name) {
            let updated = EndpointModel { format_descriptor, ..t.first() };
            assert(out =~= seq![updated] + t.drop_first());
            assert forall|i: int| 0 <= i < t.len() implies ((#[trigger] out[i]).kind == t[i].kind
                && out[i].transport_path == t[i].transport_path && out[i].endpoint_name
                == t[i].endpoint_name) by {
                if i > 0 {
                    assert(out[i] == t.drop_first()[i - 1]);
                    assert(t.drop_first()[i - 1] == t[i]);
                }
            }
        } else {
            let tail = update_first_pad(t.drop_first(), kind, pad_name, format_descriptor);
            assert(out =~= seq![t.first()] + tail);
            assert forall|i: int| 0 <= i < t.len() implies ((#[trigger] out[i]).kind == t[i].kind
                && out[i].transport_path == t[i].transport_path && out[i].endpoint_name
                == t[i].endpoint_name) by {
                if i > 0 {
                    assert(out[i] == tail[i - 1]);
                    assert(t.drop_first()[i - 1] == t[i]);
                }
            }
        }
        if wf(t) {
            assert forall|i: int| 0 <= i < out.len() implies (#[trigger] out[i]).endpoint_name
                == last_component(out[i].transport_path) by {
                assert(out[i].endpoint_name == t[i].endpoint_name);
                assert(out[i].transport_path == t[i].transport_path);
            }
            assert forall|i: int, j: int|
                #![trigger out[i], out[j]]
                0 <= i < j < out.len() && out[i].kind == out[j].kind implies out[i].transport_path
                != out[j].transport_path by {
                assert(out[i].kind == t[i].kind && out[j].kind == t[j].kind);
                assert(out[i].transport_path == t[i].transport_path);
                assert(out[j].transport_path == t[j].transport_path);
            }
        }
    }
}

/// A transport path is live exactly when it is read by a positive
/// number of endpoints.
pub proof fn lemma_is_live_iff_count_positive(
    t: Seq<EndpointModel>,
    kind: MediaKind,
    path: Seq<char>,
)
    ensures
        is_live(t, kind, path) <==> live_count(t, kind, path) > 0,
    decreases t.len(),
{
    if t.len() > 0 {
        lemma_is_live_iff_count_positive(t.drop_first(), kind, path);
        if on_path(t.first(), kind, path) {
            assert(on_path(t[0], kind, path));
        } else {
            if is_live(t, kind, path) {
                let i = choose|i: int| 0 <= i < t.len() && on_path(#[trigger] t[i], kind, path);
                assert(t.drop_first()[i - 1] == t[i]);
                assert(is_live(t.drop_first(), kind, path));
            }
            if is_live(t.drop_first(), kind, path) {
                let i = choose|i: int|
                    0 <= i < t.drop_first().len() && on_path(
                        #[trigger] t.drop_first()[i],
                        kind,
                        path,
                    );
                assert(on_path(t[i + 1], kind, path));
            }
        }
    }
}

/// In a well-formed table, no transport path is read twice.
pub proof fn lemma_wf_count_at_most_one(t: Seq<EndpointModel>, kind: MediaKind, path: Seq<char>)
    requires
        wf(t),
    ensures
        live_count(t, kind, path) <= 1,
    decreases t.len(),
{
    if t.len() > 0 {
        lemma_wf_drop_first(t);
        lemma_wf_count_at_most_one(t.drop_first(), kind, path);
        if on_path(t.first(), kind, path) {
            assert(!is_live(t.drop_first(), kind, path)) by {
                if is_live(t.drop_first(), kind, path) {
                    let i = choose|i: int|
                        0 <= i < t.drop_first().len() && on_path(
                            #[trigger] t.drop_first()[i],
                            kind,
                            path,
                        );
                    assert(t.drop_first()[i] == t[i + 1]);
                    assert(t[0].kind == t[i + 1].kind);
                }
            }
            lemma_is_live_iff_count_positive(t.drop_first(), kind, path);
        }
    }
}

/// Appending one endpoint raises the count of its own kind and path by
/// one and leaves every other count unchanged.
pub proof fn lemma_count_push(
    t: Seq<EndpointModel>,
    e: EndpointModel,
    kind: MediaKind,
    path: Seq<char>,
)
    ensures
        live_count(t.push(e), kind, path) == live_count(t, kind, path) + if on_path(
            e,
            kind,
            path,
        ) {
            1nat
        } else {
            0nat
        },
    decreases t.len(),
{
    if t.len() == 0 {
        assert(t.push(e).first() == e);
        assert(t.push(e).drop_first() =~= Seq::<EndpointModel>::empty());
        assert(live_count(t.push(e).drop_first(), kind, path) == 0);
        assert(live_count(t, kind, path) == 0);
    } else {
        assert(t.push(e).first() == t.first());
        assert(t.push(e).drop_first() =~= t.drop_first().push(e));
        lemma_count_push(t.drop_first(), e, kind, path);
        assert(live_count(t.push(e), kind, path) == (if on_path(t.first(), kind, path) {
            1nat
        } else {
            0nat
        }) + live_count(t.drop_first().push(e), kind, path));
        assert(live_count(t, kind, path) == (if on_path(t.first(), kind, path) {
            1nat
        } else {
            0nat
        }) + live_count(t.drop_first(), kind, path));
    }
}

/// Removing a path's first endpoint lowers that path's count by one
/// (when it was live) and leaves every other count unchanged.
pub proof fn lemma_count_remove_first(
    t: Seq<EndpointModel>,
    kind: MediaKind,
    path: Seq<char>,
    kind2: MediaKind,
    path2: Seq<char>,
)
    ensures
        live_count(remove_first(t, kind, path), kind2, path2) == live_count(t, kind2, path2) - (
        if is_live(t, kind, path) && kind2 == kind && path2 == path {
            1nat
        } else {
            0nat
        }),
        !(kind2 == kind && path2 == path) ==> live_count(remove_first(t, kind, path), kind2, path2)
            == live_count(t, kind2, path2),
    decreases t.len(),
{
    lemma_is_live_iff_count_positive(t, kind, path);
    if t.len() > 0 {
        if on_path(t.first(), kind, path) {
            assert(on_path(t[0], kind, path));
            if !(kind2 == kind && path2 == path) {
                assert(!on_path(t.first(), kind2, path2));
            }
        } else {
            lemma_count_remove_first(t.drop_first(), kind, path, kind2, path2);
            let glued = seq![t.first()] + remove_first(t.drop_first(), kind, path);
            assert(glued.first() == t.first());
            assert(glued.drop_first() =~= remove_first(t.drop_first(), kind, path));
            assert(is_live(t, kind, path) <==> is_live(t.drop_first(), kind, path)) by {
                lemma_is_live_iff_count_positive(t.drop_first(), kind, path);
            }
        }
    }
}

/// Renegotiating a pad's format changes no path's count.
pub proof fn lemma_count_update_first_pad(
    t: Seq<EndpointModel>,
    kind: MediaKind,
    pad_name: Seq<char>,
    format_descriptor: Seq<char>,
    kind2: MediaKind,
    path2: Seq<char>,
)
    ensures
        live_count(update_first_pad(t, kind, pad_name, format_descriptor), kind2, path2)
            == live_count(t, kind2, path2),
    decreases t.len(),
{
    if t.len() > 0 {
        if on_pad(t.first(), kind, pad_name) {
            let updated = EndpointModel { format_descriptor, ..t.first() };
            let glued = seq![updated] + t.drop_first();
            assert(glued.first() == updated);
            assert(glued.drop_first() =~= t.drop_first());
            assert(on_path(updated, kind2, path2) == on_path(t.first(), kind2, path2));
        } else {
            lemma_count_update_first_pad(t.drop_first(), kind, pad_name, format_descriptor, kind2, path2);
            let glued = seq![t.first()] + update_first_pad(
                t.drop_first(),
                kind,
                pad_name,
                format_descriptor,
            );
            assert(glued.first() == t.first());
            assert(glued.drop_first() =~= update_first_pad(
                t.drop_first(),
                kind,
                pad_name,
                format_descriptor,
            ));
        }
    }
}

/// When index `i` holds the first endpoint of kind `kind` on `path`,
/// the spec-level removal agrees with removing index `i`.
pub proof fn lemma_remove_first_agrees(
    t: Seq<EndpointModel>,
    kind: MediaKind,
    path: Seq<char>,
    i: int,
)
    requires
        0 <= i < t.len(),
        on_path(t[i], kind, path),
        forall|j: int| 0 <= j < i ==> !on_path(#[trigger] t[j], kind, path),
    ensures
        first_live(t, kind, path) == t[i],
        remove_first(t, kind, path) == t.remove(i),
    decreases t.len(),
{
    if i == 0 {
        assert(on_path(t.first(), kind, path));
        assert(t.drop_first() =~= t.remove(0));
    } else {
        assert(!on_path(t.first(), kind, path)) by {
            assert(!on_path(t[0], kind, path));
        }
        let rest = t.drop_first();
        assert forall|j: int| 0 <= j < i - 1 implies !on_path(#[trigger] rest[j], kind, path) by {
            assert(rest[j] == t[j + 1]);
        }
        assert(rest[i - 1] == t[i]);
        lemma_remove_first_agrees(rest, kind, path, i - 1);
        assert(seq![t.first()] + rest.remove(i - 1) =~= t.remove(i));
    }
}

/// When index `i` holds the first endpoint of kind `kind` on pad
/// `pad_name`, the spec-level update agrees with updating index `i`.
pub proof fn lemma_update_first_agrees(
    t: Seq<EndpointModel>,
    kind: MediaKind,
    pad_name: Seq<char>,
    format_descriptor: Seq<char>,
    i: int,
)
    requires
        0 <= i < t.len(),
        on_pad(t[i], kind, pad_name),
        forall|j: int| 0 <= j < i ==> !on_pad(#[trigger] t[j], kind, pad_name),
    ensures
        update_first_pad(t, kind, pad_name, format_descriptor) == t.update(
            i,
            EndpointModel { format_descriptor, ..t[i] },
        ),
    decreases t.len(),
{
    if i == 0 {
        assert(on_pad(t.first(), kind, pad_name));
        assert(seq![EndpointModel { format_descriptor, ..t.first() }] + t.drop_first() =~= t.update(
            0,
            EndpointModel { format_descriptor, ..t[0] },
        ));
    } else {
        assert(!on_pad(t.first(), kind, pad_name)) by {
            assert(!on_pad(t[0], kind, pad_name));
        }
        let rest = t.drop_first();
        assert forall|j: int| 0 <= j < i - 1 implies !on_pad(#[trigger] rest[j], kind, pad_name) by {
            assert(rest[j] == t[j + 1]);
        }
        assert(rest[i - 1] == t[i]);
        lemma_update_first_agrees(rest, kind, pad_name, format_descriptor, i - 1);
        assert(seq![t.first()] + rest.update(i - 1, EndpointModel { format_descriptor, ..t[i] })
            =~= t.update(i, EndpointModel { format_descriptor, ..t[i] }));
    }
}

/// The table after a spec-level removal stays well-formed.
pub proof fn lemma_wf_remove_first(t: Seq<EndpointModel>, kind: MediaKind, path: Seq<char>)
    requires
        wf(t),
    ensures
        wf(remove_first(t, kind, path)),
    decreases t.len(),
{
    if t.len() > 0 {
        lemma_wf_drop_first(t);
        if !on_path(t.first(), kind, path) {
            lemma_wf_remove_first(t.drop_first(), kind, path);
            let tail = remove_first(t.drop_first(), kind, path);
            let glued = seq![t.first()] + tail;
            lemma_remove_first_keeps_members(t.drop_first(), kind, path);
            assert forall|i: int| 0 <= i < glued.len() implies (#[trigger] glued[i]).endpoint_name
                == last_component(glued[i].transport_path) by {
                if i > 0 {
                    assert(glued[i] == tail[i - 1]);
                    let j = choose|j: int| 0 <= j < t.drop_first().len() && t.drop_first()[j]
                        == tail[i - 1];
                    assert(t.drop_first()[j] == t[j + 1]);
                } else {
                    assert(glued[0] == t[0]);
                }
            }
            assert forall|i: int, j: int|
                #![trigger glued[i], glued[j]]
                0 <= i < j < glued.len() && glued[i].kind == glued[j].kind implies glued[i]
                .transport_path != glued[j].transport_path by {
                if i == 0 {
                    assert(glued[0] == t[0]);
                    assert(glued[j] == tail[j - 1]);
                    let b = choose|b: int| 0 <= b < t.drop_first().len() && t.drop_first()[b]
                        == tail[j - 1];
                    assert(t.drop_first()[b] == t[b + 1]);
                } else {
                    assert(glued[i] == tail[i - 1]);
                    assert(glued[j] == tail[j - 1]);
                }
            }
        }
    }
}

/// Every member of the table after a spec-level removal was a member
/// before it, and the removal keeps their order-free distinctness.
proof fn lemma_remove_first_keeps_members(t: Seq<EndpointModel>, kind: MediaKind, path: Seq<char>)
    requires
        wf(t),
    ensures
        forall|i: int|
            0 <= i < remove_first(t, kind, path).len() ==> exists|j: int|
                0 <= j < t.len() && t[j] == #[trigger] remove_first(t, kind, path)[i],
        forall|i: int, j: int|
            #![trigger remove_first(t, kind, path)[i], remove_first(t, kind, path)[j]]
            0 <= i < j < remove_first(t, kind, path).len() && remove_first(t, kind, path)[i].kind
                == remove_first(t, kind, path)[j].kind ==> remove_first(t, kind, path)[i]
                .transport_path != remove_first(t, kind, path)[j].transport_path,
    decreases t.len(),
{
    if t.len() > 0 {
        lemma_wf_drop_first(t);
        if on_path(t.first(), kind, path) {
            let out = remove_first(t, kind, path);
            assert(out =~= t.drop_first());
            assert forall|i: int| 0 <= i < out.len() implies exists|j: int|
                0 <= j < t.len() && t[j] == #[trigger] out[i] by {
                assert(t[i + 1] == out[i]);
            }
        } else {
            lemma_remove_first_keeps_members(t.drop_first(), kind, path);
            let tail = remove_first(t.drop_first(), kind, path);
            let out = seq![t.first()] + tail;
            assert forall|i: int| 0 <= i < out.len() implies exists|j: int|
                0 <= j < t.len() && t[j] == #[trigger] out[i] by {
                if i == 0 {
                    assert(t[0] == out[0]);
                } else {
                    assert(out[i] == tail[i - 1]);
                    let b = choose|b: int| 0 <= b < t.drop_first().len() && t.drop_first()[b]
                        == tail[i - 1];
                    assert(t[b + 1] == out[i]);
                }
            }
            assert forall|i: int, j: int|
                #![trigger out[i], out[j]]
                0 <= i < j < out.len() && out[i].kind == out[j].kind implies out[i].transport_path
                != out[j].transport_path by {
                if i == 0 {
                    assert(out[j] == tail[j - 1]);
                    let b = choose|b: int| 0 <= b < t.drop_first().len() && t.drop_first()[b]
                        == tail[j - 1];
                    assert(t.drop_first()[b] == t[b + 1]);
                    assert(out[0] == t[0]);
                } else {
                    assert(out[i] == tail[i - 1]);
                    assert(out[j] == tail[j - 1]);
                }
            }
        }
    }
}

/// The controller's table of live endpoints, both kinds together.
pub struct EndpointTable {
    pub endpoints: Vec<Endpoint>,
}

impl View for EndpointTable {
    type V = Seq<EndpointModel>;

    open spec fn view(&self) -> Seq<EndpointModel> {
        self.endpoints@.map_values(|e: Endpoint| e@)
    }
}

impl EndpointTable {
    /// An empty table.
    pub fn new() -> (t: EndpointTable)
        ensures
            t@ == Seq::<EndpointModel>::empty(),
            wf(t@),
    {
        let t = EndpointTable { endpoints: Vec::new() };
        proof {
            assert(t@ =~= Seq::<EndpointModel>::empty());
        }
        t
    }

    /// The position of the first endpoint of kind `kind` reading
    /// `path`, if one is live.
    pub fn find(&self, kind: MediaKind, path: &String) -> (r: Option<usize>)
        ensures
            r matches Some(i) ==> (i < self@.len() && on_path(self@[i as int], kind, path@)
                && (forall|j: int| 0 <= j < i ==> !on_path(#[trigger] self@[j], kind, path@))),
            r is None ==> !is_live(self@, kind, path@),
    {
        let n = self.endpoints.len();
        let mut i: usize = 0;
        while i < n
            invariant
                i <= n,
                n == self@.len(),
                forall|j: int| 0 <= j < i ==> !on_path(#[trigger] self@[j], kind, path@),
            decreases n - i,
        {
            let e = &self.endpoints[i];
            if e.kind == kind && e.transport_path == *path {
                return Some(i);
            }
            i = i + 1;
        }
        None
    }

    /// The position of the first endpoint of kind `kind` exposing
    /// `pad_name`, if one is live.
    pub fn find_pad(&self, kind: MediaKind, pad_name: &String) -> (r: Option<usize>)
        ensures
            r matches Some(i) ==> (i < self@.len() && on_pad(self@[i as int], kind, pad_name@)
                && (forall|j: int| 0 <= j < i ==> !on_pad(#[trigger] self@[j], kind, pad_name@))),
            r is None ==> !pad_is_live(self@, kind, pad_name@),
    {
        let n = self.endpoints.len();
        let mut i: usize = 0;
        while i < n
            invariant
                i <= n,
                n == self@.len(),
                forall|j: int| 0 <= j < i ==> !on_pad(#[trigger] self@[j], kind, pad_name@),
            decreases n - i,
        {
            let e = &self.endpoints[i];
            if e.kind == kind && e.pad_name == *pad_name {
                return Some(i);
            }
            i = i + 1;
        }
        None
    }

    /// Record the endpoint built for a fresh transport path.  Its name
    /// is the path's final component.
    pub fn attach(
        &mut self,
        kind: MediaKind,
        transport_path: String,
        format_descriptor: String,
        pad_name: String,
    )
        requires
            wf(old(self)@),
            !is_live(old(self)@, kind, transport_path@),
            names_endpoint(transport_path@),
        ensures
            wf(final(self)@),
            final(self)@ == old(self)@.push(
                EndpointModel {
                    kind,
                    transport_path: transport_path@,
                    endpoint_name: last_component(transport_path@),
                    pad_name: pad_name@,
                    format_descriptor: format_descriptor@,
                },
            ),
    {
        let endpoint_name = endpoint_name_of(transport_path.as_str());
        let ghost path_view = transport_path@;
        let e = Endpoint { kind, transport_path, endpoint_name, pad_name, format_descriptor };
        let ghost old_view = self@;
        self.endpoints.push(e);
        proof {
            assert(self@ =~= old_view.push(e@));
            lemma_wf_push(old_view, e@);
        }
    }

    /// Drop the first endpoint of kind `kind` reading `path` from the
    /// table, handing it back so its teardown can be performed; a path
    /// with no live endpoint changes nothing.
    pub fn remove_path(&mut self, kind: MediaKind, path: &String) -> (removed: Option<Endpoint>)
        requires
            wf(old(self)@),
        ensures
            wf(final(self)@),
            final(self)@ == remove_first(old(self)@, kind, path@),
            !is_live(old(self)@, kind, path@) ==> (removed is None && final(self)@ == old(self)@),
            is_live(old(self)@, kind, path@) ==> (removed matches Some(e) && e@ == first_live(
                old(self)@,
                kind,
                path@,
            )),
    {
        let ghost old_view = self@;
        match self.find(kind, path) {
            Some(i) => {
                let e = self.endpoints.remove(i);
                proof {
                    assert(self@ =~= old_view.remove(i as int));
                    lemma_remove_first_agrees(old_view, kind, path@, i as int);
                    lemma_wf_remove_first(old_view, kind, path@);
                }
                Some(e)
            },
            None => {
                proof {
                    lemma_remove_first_not_live(old_view, kind, path@);
                }
                None
            },
        }
    }

    /// Record the renegotiated format of the first endpoint of kind
    /// `kind` exposing `pad_name`; a pad with no live endpoint changes
    /// nothing.
    pub fn set_format(
        &mut self,
        kind: MediaKind,
        pad_name: &String,
        format_descriptor: String,
    ) -> (updated: bool)
        requires
            wf(old(self)@),
        ensures
            wf(final(self)@),
            final(self)@ == update_first_pad(old(self)@, kind, pad_name@, format_descriptor@),
            updated == pad_is_live(old(self)@, kind, pad_name@),
            !updated ==> final(self)@ == old(self)@,
    {
        let ghost old_view = self@;
        match self.find_pad(kind, pad_name) {
            Some(i) => {
                let ghost updated_model = EndpointModel {
                    format_descriptor: format_descriptor@,
                    ..old_view[i as int]
                };
                self.endpoints[i].format_descriptor = format_descriptor;
                proof {
                    assert(self@ =~= old_view.update(i as int, updated_model));
                    lemma_update_first_agrees(
                        old_view,
                        kind,
                        pad_name@,
                        format_descriptor@,
                        i as int,
                    );
                    assert forall|a: int, b: int|
                        #![trigger self@[a], self@[b]]
                        0 <= a < b < self@.len() && self@[a].kind == self@[b].kind implies self@[a]
                        .transport_path != self@[b].transport_path by {
                        assert(self@[a].transport_path == old_view[a].transport_path);
                        assert(self@[b].transport_path == old_view[b].transport_path);
                        assert(self@[a].kind == old_view[a].kind);
                        assert(self@[b].kind == old_view[b].kind);
                    }
                    assert forall|a: int| 0 <= a < self@.len() implies (
                    #[trigger] self@[a]).endpoint_name == last_component(
                        self@[a].transport_path,
                    ) by {
                        assert(self@[a].endpoint_name == old_view[a].endpoint_name);
                        assert(self@[a].transport_path == old_view[a].transport_path);
                    }
                }
                true
            },
            None => {
                proof {
                    lemma_update_first_pad_not_live(old_view, kind, pad_name@, format_descriptor@);
                }
                false
            },
        }
    }
}

/// A removal for a path with no live endpoint changes nothing.
pub proof fn lemma_remove_first_not_live(t: Seq<EndpointModel>, kind: MediaKind, path: Seq<char>)
    requires
        !is_live(t, kind, path),
    ensures
        remove_first(t, kind, path) == t,
    decreases t.len(),
{
    if t.len() > 0 {
        assert(!on_path(t.first(), kind, path)) by {
            assert(t[0] == t.first());
        }
        assert forall|i: int| 0 <= i < t.drop_first().len() implies !on_path(
            #[trigger] t.drop_first()[i],
            kind,
            path,
        ) by {
            assert(t.drop_first()[i] == t[i + 1]);
        }
        lemma_remove_first_not_live(t.drop_first(), kind, path);
        assert(seq![t.first()] + t.drop_first() =~= t);
    }
}

/// A format change for a pad with no live endpoint changes nothing.
pub proof fn lemma_update_first_pad_not_live(
    t: Seq<EndpointModel>,
    kind: MediaKind,
    pad_name: Seq<char>,
    format_descriptor: Seq<char>,
)
    requires
        !pad_is_live(t, kind, pad_name),
    ensures
        update_first_pad(t, kind, pad_name, format_descriptor) == t,
    decreases t.len(),
{
    if t.len() > 0 {
        assert(!on_pad(t.first(), kind, pad_name)) by {
            assert(t[0] == t.first());
        }
        assert forall|i: int| 0 <= i < t.drop_first().len() implies !on_pad(
            #[trigger] t.drop_first()[i],
            kind,
            pad_name,
        ) by {
            assert(t.drop_first()[i] == t[i + 1]);
        }
        lemma_update_first_pad_not_live(t.drop_first(), kind, pad_name, format_descriptor);
        assert(seq![t.first()] + t.drop_first() =~= t);
    }
}

} // verus!
