//! The container listing: daemon records turned into the API's fixed shape.
use vstd::prelude::*;

use crate::error::RoseError;

verus! {

/// Lifecycle state of a container as the daemon reports it; `Empty` stands
/// for a state that the daemon left out.
#[derive(Clone, Copy, Debug, PartialEq, Eq, Structural)]
pub enum ContainerState {
    Empty,
    Created,
    Running,
    Paused,
    Restarting,
    Exited,
    Removing,
    Dead,
}

/// A container as the daemon describes it; the daemon may leave out any field.
pub struct ContainerSummary {
    pub id: Option<String>,
    pub names: Option<Vec<String>>,
    pub image: Option<String>,
    pub state: Option<ContainerState>,
    pub status: Option<String>,
    pub created: Option<i64>,
}

/// A container as the API reports it: every field present.
pub struct ApiContainerSummary {
    /// The container's identifier.
    pub id: String,
    /// Its first name, without the leading `/`.
    pub name: String,
    /// The image it was created from.
    pub image: String,
    /// Its lifecycle state.
    pub state: ContainerState,
    /// The daemon's description of its status (e.g. "Up 5 minutes").
    pub status: String,
    /// Its creation time, in Unix seconds.
    pub created: i64,
}

/// The text of an optional field, empty where it is absent.
pub open spec fn text_or_empty(o: Option<String>) -> Seq<char> {
    match o {
        Some(s) => s@,
        None => Seq::empty(),
    }
}

/// A name with one leading `/` taken off, if it has one.
pub open spec fn strip_separator(s: Seq<char>) -> Seq<char> {
    if s.len() > 0 && s[0] == '/' {
        s.drop_first()
    } else {
        s
    }
}

/// The name the API gives a container: its first name without the leading
/// `/`, or `unknown` where the daemon gave no name.
pub open spec fn display_name(names: Option<Vec<String>>) -> Seq<char> {
    match names {
        Some(v) => if v@.len() > 0 {
            strip_separator(v@[0]@)
        } else {
            "unknown"@
        },
        None => "unknown"@,
    }
}

/// `api` is `daemon` with each absent field replaced by its default, each
/// field on its own.
pub open spec fn normalizes(daemon: ContainerSummary, api: ApiContainerSummary) -> bool {
    &&& api.id@ == text_or_empty(daemon.id)
    &&& api.name@ == display_name(daemon.names)
    &&& api.image@ == text_or_empty(daemon.image)
    &&& api.state == match daemon.state {
        Some(s) => s,
        None => ContainerState::Empty,
    }
    &&& api.status@ == text_or_empty(daemon.status)
    &&& api.created == match daemon.created {
        Some(c) => c,
        None => 0,
    }
}

fn take_text(o: Option<String>) -> (r: String)
    ensures
        r@ == text_or_empty(o),
{
    match o {
        Some(s) => s,
        None => String::new(),
    }
}

fn strip_leading_separator(s: &str) -> (r: String)
    ensures
        r@ == strip_separator(s@),
{
    let n = s.unicode_len();
    if n > 0 && s.get_char(0) == '/' {
        String::from_str(s.substring_char(1, n))
    } else {
        String::from_str(s)
    }
}

impl ApiContainerSummary {
    /// Normalises a daemon record; no field's absence affects another field.
    pub fn from(container: ContainerSummary) -> (r: ApiContainerSummary)
        ensures
            normalizes(container, r),
    {
        let ghost daemon = container;
        let ContainerSummary { id, names, image, state, status, created } = container;
        let name = match names {
            Some(v) => if v.len() > 0 {
                strip_leading_separator(v[0].as_str())
            } else {
                String::from_str("unknown")
            },
            None => String::from_str("unknown"),
        };
        let state = match state {
            Some(s) => s,
            None => ContainerState::Empty,
        };
        let created: i64 = match created {
            Some(c) => c,
            None => 0,
        };
        ApiContainerSummary {
            id: take_text(id),
            name,
            image: take_text(image),
            state,
            status: take_text(status),
            created,
        }
    }
}

/// Defaults are filled in field by field: each field of the normalised
/// record depends on the same field of the daemon's record alone, so a record
/// that lacks one field keeps the values it gave for all the others.
pub proof fn lemma_defaults_independent(
    c1: ContainerSummary,
    c2: ContainerSummary,
    a1: ApiContainerSummary,
    a2: ApiContainerSummary,
)
    requires
        normalizes(c1, a1),
        normalizes(c2, a2),
    ensures
        c1.id == c2.id ==> a1.id@ == a2.id@,
        c1.names == c2.names ==> a1.name@ == a2.name@,
        c1.image == c2.image ==> a1.image@ == a2.image@,
        c1.state == c2.state ==> a1.state == a2.state,
        c1.status == c2.status ==> a1.status@ == a2.status@,
        c1.created == c2.created ==> a1.created == a2.created,
        c1.created is None ==> a1.created == 0,
        c1.id matches Some(s) ==> a1.id@ == s@,
        c1.image matches Some(s) ==> a1.image@ == s@,
        c1.state matches Some(s) ==> a1.state == s,
        c1.status matches Some(s) ==> a1.status@ == s@,
        c1.created matches Some(t) ==> a1.created == t,
{
}

/// The listing sent to clients; `count` is always the number of items.
pub struct ContainersListResponse {
    /// The containers, in the daemon's order.
    pub items: Vec<ApiContainerSummary>,
    /// How many containers there are.
    pub count: usize,
}

impl ContainersListResponse {
    pub open spec fn wf(&self) -> bool {
        self.count == self.items@.len()
    }

    /// A listing of exactly the given items.
    pub fn new(items: Vec<ApiContainerSummary>) -> (r: ContainersListResponse)
        ensures
            r.wf(),
            r.items@ == items@,
    {
        let count = items.len();
        ContainersListResponse { items, count }
    }
}

/// `listing` holds the normalised form of each daemon record, in order, and
/// nothing else.
pub open spec fn lists(daemon: Seq<ContainerSummary>, listing: ContainersListResponse) -> bool {
    &&& listing.wf()
    &&& listing.items@.len() == daemon.len()
    &&& forall|i: int| 0 <= i < daemon.len() ==> normalizes(#[trigger] daemon[i], listing.items@[i])
}

/// The listing built from the daemon's answer to a request for all
/// containers: every record normalised, in the daemon's order, or, where the
/// daemon could not be asked, its error as a whole with no partial listing.
pub fn containers(listed: Result<Vec<ContainerSummary>, bollard::errors::Error>) -> (r: Result<
    ContainersListResponse,
    RoseError,
>)
    ensures
        match listed {
            Ok(daemon) => r matches Ok(listing) && lists(daemon@, listing) && listing.count
                == listing.items@.len(),
            Err(e) => r == Err::<ContainersListResponse, RoseError>(RoseError::Docker(e)),
        },
{
    match listed {
        Ok(daemon) => {
            let ghost records = daemon@;
            let mut items: Vec<ApiContainerSummary> = Vec::new();
            for container in it: daemon.into_iter()
                invariant
                    it.seq() == records,
                    items@.len() == it.index(),
                    forall|i: int| 0 <= i < items@.len() ==> normalizes(#[trigger] records[i], items@[i]),
            {
                items.push(ApiContainerSummary::from(container));
            }
            Ok(ContainersListResponse::new(items))
        },
        Err(e) => Err(RoseError::Docker(e)),
    }
}

} // verus!
