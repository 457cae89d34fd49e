use vstd::prelude::*;

use crate::msg::{Action, FetchError, Msg};
use crate::view::no_newline;

verus! {

/// Directory listing returned by the first request: the ordered sequence of
/// entries, exactly as the server sent it.
pub struct DataFromFile {
    pub tree: Vec<ImageFromFile>,
}

/// One entry of the listing: the absolute URL of a blob resource.
pub struct ImageFromFile {
    pub url: String,
}

/// Payload of the second request: the base64 content of the selected blob.
pub struct ContentFromFile {
    pub content: String,
}

/// Where the component stands in the two-stage fetch cycle.
#[derive(PartialEq, Eq, Structural)]
pub enum Phase {
    /// No request outstanding.
    Idle,
    /// Awaiting the directory listing.
    FetchingTree,
    /// Awaiting the content of the selected blob.
    FetchingBlob,
}

/// The component state: the visible fields (`fetching`, `data`), the cycle
/// bookkeeping (`phase`, `epoch`), and the configuration it was mounted with.
pub struct Model {
    /// True exactly while a fetch cycle is in flight.
    pub fetching: bool,
    /// The base64 payload of the last successful cycle, newline wrapping and
    /// all, or `None` while no cycle has succeeded.
    pub data: Option<String>,
    /// Which stage of the cycle the component is in.
    pub phase: Phase,
    /// Identifier of the current cycle; a completion stamped with any other
    /// value is stale and must not change the state.
    pub epoch: u64,
    /// URL of the directory-listing endpoint.
    pub api_base: String,
    /// Which entry of the listing to fetch.
    pub tree_index: usize,
    /// Value sent as the `Authorization` header of both requests.
    pub auth_token: String,
    /// Content type written into the rendered data URL.
    pub mime_type: String,
}

/// A status in the 2xx range, the adapter's notion of success.
pub open spec fn is_success(status: u16) -> bool {
    200 <= status < 300
}

/// The epoch a message carries, if it is a completion of some cycle.
pub open spec fn completion_epoch(msg: Msg) -> Option<u64> {
    match msg {
        Msg::FetchDataReady(e, _) => Some(e),
        Msg::FetchImageReady(e, _) => Some(e),
        _ => None,
    }
}

/// The transition relation of the reducer: holds when processing `msg` in
/// state `pre` yields state `post`, render signal `render` and side effect
/// `act`. This is the single definition every step of `Model::update` is
/// proved against.
pub open spec fn step_ok(pre: Model, msg: Msg, post: Model, render: bool, act: Action) -> bool {
    &&& post.api_base == pre.api_base
    &&& post.tree_index == pre.tree_index
    &&& post.auth_token == pre.auth_token
    &&& post.mime_type == pre.mime_type
    &&& match msg {
        Msg::FetchData => {
            &&& post.epoch == pre.epoch + 1
            &&& post.phase is FetchingTree
            &&& post.fetching
            &&& post.data == pre.data
            &&& render
            &&& (act matches Action::FetchTree { epoch, url, auth }
                && epoch == post.epoch && url == pre.api_base && auth == pre.auth_token)
        },
        Msg::FetchDataReady(e, res) => {
            if e == pre.epoch && pre.phase is FetchingTree {
                match res {
                    Ok(url) => {
                        &&& post.phase is FetchingBlob
                        &&& post.fetching
                        &&& post.data == pre.data
                        &&& post.epoch == pre.epoch
                        &&& render
                        &&& (act matches Action::FetchBlob { epoch, url: u, auth }
                            && epoch == pre.epoch && u == url && auth == pre.auth_token)
                    },
                    Err(_) => cycle_ended(pre, post, render, act),
                }
            } else {
                swallowed(pre, post, render, act)
            }
        },
        Msg::FetchImageReady(e, res) => {
            if e == pre.epoch && pre.phase is FetchingBlob {
                match res {
                    Ok(b64) => {
                        &&& post.phase is Idle
                        &&& !post.fetching
                        &&& post.data == Some(b64)
                        &&& post.epoch == pre.epoch
                        &&& render
                        &&& act is Nothing
                    },
                    Err(_) => cycle_ended(pre, post, render, act),
                }
            } else {
                swallowed(pre, post, render, act)
            }
        },
        Msg::Ignore => {
            if pre.phase is Idle {
                swallowed(pre, post, render, act)
            } else {
                cycle_ended(pre, post, render, act)
            }
        },
    }
}

/// The cycle ended without new content: back to idle, content kept, nothing
/// more requested, and a re-render asked for (the fetching indicator cleared).
pub open spec fn cycle_ended(pre: Model, post: Model, render: bool, act: Action) -> bool {
    &&& post.phase is Idle
    &&& !post.fetching
    &&& post.data == pre.data
    &&& post.epoch == pre.epoch
    &&& render
    &&& act is Nothing
}

/// The message was swallowed whole: no state change, no re-render, no request.
pub open spec fn swallowed(pre: Model, post: Model, render: bool, act: Action) -> bool {
    &&& post == pre
    &&& !render
    &&& act is Nothing
}

impl Model {
    /// The state is well formed: the visible `fetching` flag agrees with the
    /// phase, and the configured content type cannot smuggle a line break
    /// into a rendered data URL.
    pub open spec fn wf(&self) -> bool {
        &&& self.fetching <==> !(self.phase is Idle)
        &&& no_newline(self.mime_type@)
    }

    /// A freshly mounted component: idle, nothing fetched, cycle counter at
    /// zero, holding the configuration it will use for every cycle.
    pub fn create(api_base: String, tree_index: usize, auth_token: String, mime_type: String) -> (m: Model)
        requires
            no_newline(mime_type@),
        ensures
            m.wf(),
            !m.fetching,
            m.data is None,
            m.phase is Idle,
            m.epoch == 0,
            m.api_base == api_base,
            m.tree_index == tree_index,
            m.auth_token == auth_token,
            m.mime_type == mime_type,
    {
        Model {
            fetching: false,
            data: None,
            phase: Phase::Idle,
            epoch: 0,
            api_base,
            tree_index,
            auth_token,
            mime_type,
        }
    }

    /// Process one message: mutate the state, say whether the view must be
    /// recomputed, and say which request the environment must issue, if any.
    ///
    /// The full behaviour is `step_ok`; the remaining clauses state the
    /// component invariants it implies. `fetching` holds exactly in the two
    /// in-flight phases; only a successful blob completion of the current
    /// cycle can change `data`; a stale completion changes nothing and asks
    /// for nothing; a blob completion that finds the component idle is a
    /// no-op without a re-render.
    pub fn update(&mut self, msg: Msg) -> (r: (bool, Action))
        requires
            old(self).wf(),
            msg is FetchData ==> old(self).epoch < u64::MAX,
        ensures
            step_ok(*old(self), msg, *final(self), r.0, r.1),
            final(self).wf(),
            final(self).fetching <==> (final(self).phase is FetchingTree
                || final(self).phase is FetchingBlob),
            final(self).data != old(self).data ==> ({
                &&& msg matches Msg::FetchImageReady(e, res)
                &&& e == old(self).epoch
                &&& old(self).phase is FetchingBlob
                &&& res matches Ok(b64)
                &&& final(self).data == Some(b64)
            }),
            (completion_epoch(msg) matches Some(e) && e != old(self).epoch)
                ==> *final(self) == *old(self) && !r.0 && r.1 is Nothing,
            old(self).phase is Idle && msg is FetchImageReady
                ==> *final(self) == *old(self) && !r.0,
    {
        match msg {
            Msg::FetchData => {
                self.fetching = true;
                self.phase = Phase::FetchingTree;
                self.epoch = self.epoch + 1;
                let act = Action::FetchTree {
                    epoch: self.epoch,
                    url: self.api_base.clone(),
                    auth: self.auth_token.clone(),
                };
                (true, act)
            },
            Msg::FetchDataReady(e, res) => {
                if e == self.epoch && self.phase == Phase::FetchingTree {
                    match res {
                        Ok(url) => {
                            self.phase = Phase::FetchingBlob;
                            let act = Action::FetchBlob {
                                epoch: e,
                                url,
                                auth: self.auth_token.clone(),
                            };
                            (true, act)
                        },
                        Err(_) => {
                            self.phase = Phase::Idle;
                            self.fetching = false;
                            (true, Action::Nothing)
                        },
                    }
                } else {
                    (false, Action::Nothing)
                }
            },
            Msg::FetchImageReady(e, res) => {
                if e == self.epoch && self.phase == Phase::FetchingBlob {
                    self.phase = Phase::Idle;
                    self.fetching = false;
                    match res {
                        Ok(b64) => {
                            self.data = Some(b64);
                            (true, Action::Nothing)
                        },
                        Err(_) => (true, Action::Nothing),
                    }
                } else {
                    (false, Action::Nothing)
                }
            },
            Msg::Ignore => {
                if self.phase == Phase::Idle {
                    (false, Action::Nothing)
                } else {
                    self.phase = Phase::Idle;
                    self.fetching = false;
                    (true, Action::Nothing)
                }
            },
        }
    }
}

/// The message the directory-listing continuation hands the reducer: a
/// protocol failure outside the 2xx range, otherwise the URL of the entry at
/// `tree_index`, or a selection failure when the listing is too short.
pub open spec fn tree_completion_spec(
    epoch: u64,
    status: u16,
    body: Result<DataFromFile, FetchError>,
    tree_index: usize,
) -> Msg {
    if !is_success(status) {
        Msg::FetchDataReady(epoch, Err(FetchError::Protocol))
    } else {
        match body {
            Err(e) => Msg::FetchDataReady(epoch, Err(e)),
            Ok(data) => if tree_index < data.tree@.len() {
                Msg::FetchDataReady(epoch, Ok(data.tree@[tree_index as int].url))
            } else {
                Msg::FetchDataReady(epoch, Err(FetchError::Selection))
            },
        }
    }
}

/// Shape the completion of the directory-listing request into a message,
/// stamped with the epoch of the cycle that issued the request. `body` is
/// the decoded response, or the decoding failure.
pub fn tree_completion(
    epoch: u64,
    status: u16,
    body: Result<DataFromFile, FetchError>,
    tree_index: usize,
) -> (m: Msg)
    ensures
        m == tree_completion_spec(epoch, status, body, tree_index),
{
    if !(status >= 200 && status < 300) {
        Msg::FetchDataReady(epoch, Err(FetchError::Protocol))
    } else {
        match body {
            Err(e) => Msg::FetchDataReady(epoch, Err(e)),
            Ok(data) => {
                if tree_index < data.tree.len() {
                    let url = data.tree[tree_index].url.clone();
                    Msg::FetchDataReady(epoch, Ok(url))
                } else {
                    Msg::FetchDataReady(epoch, Err(FetchError::Selection))
                }
            },
        }
    }
}

/// The message the blob continuation hands the reducer: a protocol failure
/// outside the 2xx range, otherwise the base64 content of the blob.
pub open spec fn blob_completion_spec(
    epoch: u64,
    status: u16,
    body: Result<ContentFromFile, FetchError>,
) -> Msg {
    if !is_success(status) {
        Msg::FetchImageReady(epoch, Err(FetchError::Protocol))
    } else {
        match body {
            Err(e) => Msg::FetchImageReady(epoch, Err(e)),
            Ok(content) => Msg::FetchImageReady(epoch, Ok(content.content)),
        }
    }
}

/// Shape the completion of the blob request into a message, stamped with the
/// epoch of the cycle that issued the request.
pub fn blob_completion(
    epoch: u64,
    status: u16,
    body: Result<ContentFromFile, FetchError>,
) -> (m: Msg)
    ensures
        m == blob_completion_spec(epoch, status, body),
{
    if !(status >= 200 && status < 300) {
        Msg::FetchImageReady(epoch, Err(FetchError::Protocol))
    } else {
        match body {
            Err(e) => Msg::FetchImageReady(epoch, Err(e)),
            Ok(content) => Msg::FetchImageReady(epoch, Ok(content.content)),
        }
    }
}

} // verus!
