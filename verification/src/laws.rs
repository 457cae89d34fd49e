use vstd::prelude::*;

use crate::model::{
    blob_completion_spec, is_success, step_ok, tree_completion_spec, ContentFromFile,
    DataFromFile, Model,
};
use crate::msg::{Action, FetchError, Msg};

verus! {

/// A tree index at or past the end of the listing ends the cycle: the
/// completion built from a successful listing response returns the component
/// to idle with its content unchanged, no second request is issued, and the
/// fetching indicator is cleared.
pub proof fn lemma_selection_out_of_bounds(
    pre: Model,
    post: Model,
    render: bool,
    act: Action,
    status: u16,
    data: DataFromFile,
)
    requires
        pre.phase is FetchingTree,
        is_success(status),
        pre.tree_index >= data.tree@.len(),
        step_ok(
            pre,
            tree_completion_spec(pre.epoch, status, Ok(data), pre.tree_index),
            post,
            render,
            act,
        ),
    ensures
        post.phase is Idle,
        !post.fetching,
        post.data == pre.data,
        act is Nothing,
{
}

/// Two fetch requests in quick succession leave only the second cycle able
/// to change the state: the first cycle's completion, arriving late, carries
/// a stale epoch, is discarded whole, asks for no re-render and no request,
/// and the component stays awaiting the second cycle's listing.
pub proof fn lemma_second_fetch_discards_first(
    m0: Model,
    m1: Model,
    m2: Model,
    m3: Model,
    r1: bool,
    r2: bool,
    r3: bool,
    a1: Action,
    a2: Action,
    a3: Action,
    res: Result<String, FetchError>,
)
    requires
        step_ok(m0, Msg::FetchData, m1, r1, a1),
        step_ok(m1, Msg::FetchData, m2, r2, a2),
        step_ok(m2, Msg::FetchDataReady(m1.epoch, res), m3, r3, a3),
    ensures
        m3 == m2,
        !r3,
        a3 is Nothing,
        m2.phase is FetchingTree,
{
}

/// The happy path of one cycle, for any listing and any blob. A fetch
/// request, a successful listing whose selected entry is `U`, and a
/// successful blob response: the second request goes to `U` exactly, and the
/// component ends idle holding the blob's content, ready to render it.
pub proof fn lemma_fetch_cycle_round_trip(
    m0: Model,
    m1: Model,
    m2: Model,
    m3: Model,
    r1: bool,
    r2: bool,
    r3: bool,
    a1: Action,
    a2: Action,
    a3: Action,
    status1: u16,
    status2: u16,
    data: DataFromFile,
    content: ContentFromFile,
)
    requires
        is_success(status1),
        is_success(status2),
        m0.tree_index < data.tree@.len(),
        step_ok(m0, Msg::FetchData, m1, r1, a1),
        step_ok(
            m1,
            tree_completion_spec(m1.epoch, status1, Ok(data), m0.tree_index),
            m2,
            r2,
            a2,
        ),
        step_ok(
            m2,
            blob_completion_spec(m1.epoch, status2, Ok(content)),
            m3,
            r3,
            a3,
        ),
    ensures
        a2 matches Action::FetchBlob { url, .. }
            && url == data.tree@[m0.tree_index as int].url,
        m3.phase is Idle,
        !m3.fetching,
        m3.data == Some(content.content),
{
}

} // verus!
