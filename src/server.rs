//! Request routing of the streaming endpoint: `GET /<stream-id>` streams,
//! `HEAD` answers with headers only, an unknown id is not found and any
//! other method is not allowed.
use vstd::prelude::*;
use vstd::string::StringExecFns;

verus! {

/// How the server answers one request.
#[derive(Debug, Clone, Copy, PartialEq, Eq, Structural)]
pub enum Route {
    /// Serve the stream with this index; `head_only` sends headers alone.
    Stream { index: usize, head_only: bool },
    /// HTTP 404.
    NotFound,
    /// HTTP 405.
    MethodNotAllowed,
}

pub open spec fn is_get(m: Seq<char>) -> bool {
    m == "GET"@
}

pub open spec fn is_head(m: Seq<char>) -> bool {
    m == "HEAD"@
}

/// The path under which stream `id` is served.
pub open spec fn stream_path(id: Seq<char>) -> Seq<char> {
    seq!['/'] + id
}

/// Some stream id is served under `path`.
pub open spec fn serves(ids: Seq<Seq<char>>, path: Seq<char>) -> bool {
    exists|i: int| 0 <= i < ids.len() && stream_path(#[trigger] ids[i]) == path
}

pub fn route(method: &String, path: &String, ids: &Vec<String>) -> (r: Route)
    ensures
        !is_get(method@) && !is_head(method@) ==> r == Route::MethodNotAllowed,
        (is_get(method@) || is_head(method@)) && !serves(ids@.map_values(|s: String| s@), path@)
            ==> r == Route::NotFound,
        (is_get(method@) || is_head(method@)) && serves(ids@.map_values(|s: String| s@), path@)
            ==> (r matches Route::Stream { index, head_only } && index < ids.len()
            && stream_path(ids@[index as int]@) == path@ && head_only == is_head(method@)
            && forall|j: int| 0 <= j < index ==> stream_path(#[trigger] ids@[j]@) != path@),
{
    proof {
        reveal_strlit("GET");
        reveal_strlit("HEAD");
    }
    let get = String::from_str("GET");
    let head = String::from_str("HEAD");
    let head_only = *method == head;
    if !(*method == get) && !head_only {
        return Route::MethodNotAllowed;
    }
    let ghost idv = ids@.map_values(|s: String| s@);
    let mut i: usize = 0;
    while i < ids.len()
        invariant
            i <= ids.len(),
            idv == ids@.map_values(|s: String| s@),
            is_get(method@) || is_head(method@),
            head_only == is_head(method@),
            forall|j: int| 0 <= j < i ==> stream_path(#[trigger] ids@[j]@) != path@,
        decreases ids.len() - i,
    {
        let mut p = String::from_str("/");
        p.append(ids[i].as_str());
        proof {
            reveal_strlit("/");
        }
        assert(p@ =~= stream_path(ids@[i as int]@));
        if p == *path {
            assert(idv[i as int] == ids@[i as int]@);
            return Route::Stream { index: i, head_only };
        }
        i = i + 1;
    }
    proof {
        if serves(idv, path@) {
            let k = choose|k: int| 0 <= k < idv.len() && stream_path(#[trigger] idv[k]) == path@;
            assert(idv[k] == ids@[k]@);
        }
    }
    Route::NotFound
}

} // verus!
