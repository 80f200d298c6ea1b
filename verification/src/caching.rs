//! What the answers of the service have to do with one another.
//!
//! The service does its part as `Answering` says. The cache is awaited outside the
//! library, so what it does is no more than a hypothesis here: `cache_allows` and
//! `Keeping` say what is taken of it, and every statement is made of a cache that
//! does so. It gives what it keeps. Where it keeps nothing for a key it has one
//! request at a time compiled; the others wait, and each is given the outcome of the
//! request that it waited for. Where that request is dropped halfway, those that
//! waited for it begin anew.
use crate::coordinator::compilation::CompileResponse as ContainerResponse;
use crate::coordinator::error::CompileError;
use crate::coordinator::output::WithOutput;
use crate::digest;
use crate::service;
use crate::service::{AnswerAction, AnswerEvent, Answering};
use crate::{CompileRequest, CompileResponse, CompilerError};
use vstd::prelude::*;

verus! {

/// A step in the life of a service and its cache: something happens to a request,
/// and `action` is what is done then.
pub ghost enum CacheStep {
    /// The cache gives the answer that it keeps.
    Kept { request: CompileRequest, response: CompileResponse, action: AnswerAction },
    /// The request begins to wait for another request for the same code.
    Waits { request: CompileRequest },
    /// The cache gives the answer to the request that was waited for: the waiting
    /// began in step `waited`, and the other request was answered in step `by`.
    Shared {
        request: CompileRequest,
        waited: int,
        by: int,
        answer: Result<CompileResponse, CompilerError>,
        action: AnswerAction,
    },
    /// The cache has no answer.
    Missed { request: CompileRequest, action: AnswerAction },
    /// The container answered a request that the cache had no answer to.
    Built {
        request: CompileRequest,
        answer: Result<WithOutput<ContainerResponse>, CompileError>,
        action: AnswerAction,
    },
    /// A request that the cache had no answer to was dropped, or it panicked, before
    /// it was answered.
    Dropped { request: CompileRequest },
    /// The cache drops what it keeps under a key.
    Evicted { key: Seq<char> },
}

/// What a cache keeps, and for which request it has which key compiled.
pub ghost struct Keeping {
    pub kept: Map<Seq<char>, CompileResponse>,
    pub building: Map<Seq<char>, CompileRequest>,
}

impl CacheStep {
    /// The code of the request that the step is about, if it is about one.
    pub open spec fn code(self) -> Seq<char> {
        match self {
            CacheStep::Kept { request, .. } => request.code@,
            CacheStep::Waits { request } => request.code@,
            CacheStep::Shared { request, .. } => request.code@,
            CacheStep::Missed { request, .. } => request.code@,
            CacheStep::Built { request, .. } => request.code@,
            CacheStep::Dropped { request } => request.code@,
            CacheStep::Evicted { .. } => Seq::empty(),
        }
    }

    /// The digest of the code of the request that the step is about.
    pub open spec fn digest(self) -> Seq<u8> {
        digest::sha256_digest(vstd::utf8::encode_utf8(self.code()))
    }

    /// The key that the step is about.
    pub open spec fn key(self) -> Seq<char> {
        match self {
            CacheStep::Evicted { key } => key,
            _ => service::cache_key(self.code()),
        }
    }

    /// How a request is answered in the step, if one is.
    pub open spec fn answer(self) -> Option<Result<CompileResponse, CompilerError>> {
        match self {
            CacheStep::Kept { action: AnswerAction::Answer(answer), .. } => Some(answer),
            CacheStep::Shared { action: AnswerAction::Answer(answer), .. } => Some(answer),
            CacheStep::Built { action: AnswerAction::Conclude(answer), .. } => Some(answer),
            _ => None,
        }
    }

    /// Whether a compilation for `key` ends in the step.
    pub open spec fn ends(self, key: Seq<char>) -> bool {
        (self is Built || self is Dropped) && self.key() == key
    }

    /// The service does its part in the step.
    pub open spec fn served(self) -> bool {
        match self {
            CacheStep::Kept { request, response, action } => {
                Answering::LookingUp { request }.reaction(AnswerEvent::Found(Ok(response)), action)
            },
            CacheStep::Shared { request, answer, action, .. } => {
                Answering::LookingUp { request }.reaction(AnswerEvent::Found(answer), action)
            },
            CacheStep::Missed { request, action } => {
                Answering::LookingUp { request }.reaction(AnswerEvent::Missed, action)
            },
            CacheStep::Built { answer, action, .. } => {
                Answering::Building.reaction(AnswerEvent::Built(answer), action)
            },
            _ => true,
        }
    }
}

impl Keeping {
    /// A new cache.
    pub open spec fn nothing() -> Keeping {
        Keeping { kept: Map::empty(), building: Map::empty() }
    }

    /// The cache after `step`: it keeps a response that it is told to keep.
    pub open spec fn after(self, step: CacheStep) -> Keeping {
        let key = step.key();
        match step {
            CacheStep::Missed { request, .. } => Keeping {
                building: self.building.insert(key, request),
                ..self
            },
            CacheStep::Built { action: AnswerAction::Conclude(answer), .. } => Keeping {
                kept: match answer {
                    Ok(response) => self.kept.insert(key, response),
                    Err(_) => self.kept,
                },
                building: self.building.remove(key),
            },
            CacheStep::Dropped { .. } => Keeping { building: self.building.remove(key), ..self },
            CacheStep::Evicted { .. } => Keeping { kept: self.kept.remove(key), ..self },
            _ => self,
        }
    }
}

/// The cache after all of `steps`, one after another.
pub open spec fn keeping_after(steps: Seq<CacheStep>) -> Keeping
    decreases steps.len(),
{
    if steps.len() == 0 {
        Keeping::nothing()
    } else {
        keeping_after(steps.drop_last()).after(steps.last())
    }
}

/// A request for `request` that began to wait in step `waited` waited for the
/// request that was answered with `answer` in step `by`, and for no other.
pub open spec fn waited_for(
    steps: Seq<CacheStep>,
    request: CompileRequest,
    waited: int,
    by: int,
    answer: Result<CompileResponse, CompilerError>,
) -> bool {
    &&& 0 <= waited < by < steps.len()
    &&& steps[waited] == CacheStep::Waits { request }
    &&& steps[by] is Built || steps[by] is Kept
    &&& steps[by].key() == steps[waited].key()
    &&& steps[by].answer() == Some(answer)
    &&& forall|k: int| waited < k < by ==> !(#[trigger] steps[k]).ends(steps[waited].key())
}

/// The cache does its part in `step`, which comes after `steps`.
pub open spec fn cache_allows(steps: Seq<CacheStep>, step: CacheStep) -> bool {
    let cache = keeping_after(steps);
    let key = step.key();
    match step {
        CacheStep::Kept { response, .. } => {
            &&& cache.kept.dom().contains(key)
            &&& response == cache.kept[key]
        },
        CacheStep::Waits { .. } => true,
        CacheStep::Shared { request, waited, by, answer, .. } => waited_for(
            steps,
            request,
            waited,
            by,
            answer,
        ),
        CacheStep::Missed { .. } => {
            &&& !cache.kept.dom().contains(key)
            &&& !cache.building.dom().contains(key)
        },
        CacheStep::Built { request, .. } => {
            &&& cache.building.dom().contains(key)
            &&& cache.building[key] == request
        },
        CacheStep::Dropped { request } => {
            &&& cache.building.dom().contains(key)
            &&& cache.building[key] == request
        },
        CacheStep::Evicted { .. } => true,
    }
}

/// A history of a service and a cache that both do their part.
pub open spec fn service_history(steps: Seq<CacheStep>) -> bool
    decreases steps.len(),
{
    steps.len() > 0 ==> {
        &&& service_history(steps.drop_last())
        &&& cache_allows(steps.drop_last(), steps.last())
        &&& steps.last().served()
    }
}

proof fn lemma_prefix(steps: Seq<CacheStep>, n: int)
    requires
        service_history(steps),
        0 <= n <= steps.len(),
    ensures
        service_history(steps.take(n)),
        n < steps.len() ==> {
            &&& cache_allows(steps.take(n), steps[n])
            &&& steps[n].served()
            &&& keeping_after(steps.take(n + 1)) == keeping_after(steps.take(n)).after(steps[n])
        },
    decreases steps.len(),
{
    let before = steps.drop_last();
    if n == steps.len() {
        assert(steps.take(n) =~= steps);
    } else if n == steps.len() - 1 {
        assert(steps.take(n) =~= before);
        assert(steps.take(n + 1) =~= steps);
    } else {
        lemma_prefix(before, n);
        assert(before.take(n) =~= steps.take(n));
        assert(before.take(n + 1) =~= steps.take(n + 1));
        assert(before[n] == steps[n]);
    }
}

/// No key is compiled for under which something is kept, and what is kept is how a
/// compilation for its key was concluded.
proof fn lemma_kept(steps: Seq<CacheStep>)
    requires
        service_history(steps),
    ensures
        ({
            let cache = keeping_after(steps);
            forall|key: Seq<char>| #[trigger]
                cache.kept.dom().contains(key) ==> {
                    &&& !cache.building.dom().contains(key)
                    &&& was_concluded(steps, key, Ok(cache.kept[key]))
                }
        }),
    decreases steps.len(),
{
    if steps.len() > 0 {
        let before = steps.drop_last();
        let was = keeping_after(before);
        let now = keeping_after(steps);
        lemma_kept(before);
        assert(steps[steps.len() - 1] == steps.last());
        assert forall|key: Seq<char>| #[trigger] now.kept.dom().contains(key) implies {
            &&& !now.building.dom().contains(key)
            &&& was_concluded(steps, key, Ok(now.kept[key]))
        } by {
            let answer = Ok::<_, CompilerError>(now.kept[key]);
            if steps.last() is Built && steps.last().key() == key {
                assert(!was.kept.dom().contains(key));
                assert(concluded_at(steps, steps.len() - 1, key, answer));
            } else {
                assert(was.kept.dom().contains(key));
                let i = choose|i: int| concluded_at(before, i, key, answer);
                assert(before[i] == steps[i]);
                assert(concluded_at(steps, i, key, answer));
            }
        }
    }
}

/// Step `i` of `steps` concludes a compilation for `key` with `answer`.
pub open spec fn concluded_at(
    steps: Seq<CacheStep>,
    i: int,
    key: Seq<char>,
    answer: Result<CompileResponse, CompilerError>,
) -> bool {
    &&& 0 <= i < steps.len()
    &&& steps[i] is Built
    &&& steps[i].key() == key
    &&& steps[i].answer() == Some(answer)
}

/// A compilation for `key` was concluded with `answer`.
pub open spec fn was_concluded(
    steps: Seq<CacheStep>,
    key: Seq<char>,
    answer: Result<CompileResponse, CompilerError>,
) -> bool {
    exists|i: int| concluded_at(steps, i, key, answer)
}

/// The answer `r` that a request was given, from the cache or from a container, is
/// kept while it is not dropped.
proof fn lemma_stays(steps: Seq<CacheStep>, i: int, j: int, r: CompileResponse)
    requires
        service_history(steps),
        0 <= i < j <= steps.len(),
        steps[i] is Built || steps[i] is Kept,
        steps[i].answer() == Some(Ok::<_, CompilerError>(r)),
        forall|k: int|
            i < k < j ==> !(#[trigger] steps[k] is Evicted && steps[k].key() == steps[i].key()),
    ensures
        keeping_after(steps.take(j)).kept.dom().contains(steps[i].key()),
        keeping_after(steps.take(j)).kept[steps[i].key()] == r,
    decreases j,
{
    lemma_prefix(steps, j - 1);
    lemma_kept(steps.take(j - 1));
    if j - 1 > i {
        lemma_stays(steps, i, j - 1, r);
        assert(!(steps[j - 1] is Evicted && steps[j - 1].key() == steps[i].key()));
    }
}

/// In which step the request that is answered in step `j` began to wait for that
/// answer; step `j` itself where it did not wait.
pub open spec fn began(steps: Seq<CacheStep>, j: int) -> int {
    match steps[j] {
        CacheStep::Shared { waited, .. } => waited,
        _ => j,
    }
}

/// Where a request was answered with a response, by a container or from what the
/// cache keeps, and that response was not dropped since, every later request for the
/// same code that is answered is answered with it too, and no container is asked.
pub proof fn kept_answer_is_given_again(
    steps: Seq<CacheStep>,
    i: int,
    j: int,
    r: CompileResponse,
)
    requires
        service_history(steps),
        0 <= i < j < steps.len(),
        steps[i] is Built || steps[i] is Kept,
        steps[i].answer() == Some(Ok::<_, CompilerError>(r)),
        steps[j].key() == steps[i].key(),
        began(steps, j) > i,
        forall|k: int|
            i < k <= j ==> !(#[trigger] steps[k] is Evicted && steps[k].key() == steps[i].key()),
    ensures
        !(steps[j] is Missed || steps[j] is Built || steps[j] is Dropped),
        steps[j] is Kept || steps[j] is Shared ==> steps[j].answer() == Some(
            Ok::<_, CompilerError>(r),
        ),
{
    let key = steps[i].key();
    lemma_stays(steps, i, j, r);
    lemma_prefix(steps, j);
    lemma_kept(steps.take(j));
    assert(keeping_after(steps.take(j)).kept.dom().contains(key));
    if let CacheStep::Shared { waited, by, .. } = steps[j] {
        assert(steps.take(j)[by] == steps[by]);
        assert(steps.take(j)[waited] == steps[waited]);
        lemma_stays(steps, i, by, r);
        lemma_prefix(steps, by);
        lemma_kept(steps.take(by));
        assert(keeping_after(steps.take(by)).kept.dom().contains(key));
    }
}

/// An answer that no container was asked for is the conclusion of an earlier
/// compilation of code with the same digest: other code never gets it.
pub proof fn found_answers_are_for_the_same_digest(steps: Seq<CacheStep>, j: int) -> (i: int)
    requires
        service_history(steps),
        0 <= j < steps.len(),
        steps[j] is Kept || steps[j] is Shared,
    ensures
        0 <= i < j,
        steps[i] is Built,
        steps[i].answer() == steps[j].answer(),
        steps[i].digest() == steps[j].digest(),
    decreases j,
{
    lemma_prefix(steps, j);
    let before = steps.take(j);
    match steps[j] {
        CacheStep::Shared { waited, by, .. } => {
            assert(before[by] == steps[by] && before[waited] == steps[waited]);
            service::keys_tell_digests_apart(steps[by].code(), steps[j].code());
            if steps[by] is Built {
                by
            } else {
                found_answers_are_for_the_same_digest(steps, by)
            }
        },
        _ => {
            lemma_kept(before);
            let key = steps[j].key();
            let kept = keeping_after(before).kept;
            assert(kept.dom().contains(key));
            let i = choose|i: int| concluded_at(before, i, key, Ok(kept[key]));
            assert(before[i] == steps[i]);
            service::keys_tell_digests_apart(steps[i].code(), steps[j].code());
            i
        },
    }
}

/// The cache has no answer to `request` in step `m`.
pub open spec fn missed_at(steps: Seq<CacheStep>, m: int, request: CompileRequest) -> bool {
    &&& 0 <= m < steps.len()
    &&& steps[m] matches CacheStep::Missed { request: missed, .. }
    &&& missed == request
}

proof fn lemma_building(steps: Seq<CacheStep>)
    requires
        service_history(steps),
    ensures
        ({
            let building = keeping_after(steps).building;
            forall|key: Seq<char>| #[trigger]
                building.dom().contains(key) ==> exists|m: int| missed_at(steps, m, building[key])
        }),
    decreases steps.len(),
{
    if steps.len() > 0 {
        let before = steps.drop_last();
        let was = keeping_after(before).building;
        let now = keeping_after(steps).building;
        lemma_building(before);
        assert(steps[steps.len() - 1] == steps.last());
        assert forall|key: Seq<char>| #[trigger] now.dom().contains(key) implies exists|m: int|
            missed_at(steps, m, now[key]) by {
            if steps.last() is Missed && steps.last().key() == key {
                assert(missed_at(steps, steps.len() - 1, now[key]));
            } else {
                assert(was.dom().contains(key));
                let m = choose|m: int| missed_at(before, m, was[key]);
                assert(before[m] == steps[m]);
                assert(missed_at(steps, m, now[key]));
            }
        }
    }
}

/// Every answer, from a container or from the cache, is the outcome of compiling the
/// whole code of one request, of the same digest as the code that the answer is for:
/// step `at.0` asked a container for all of that code, and in step `at.1` the
/// container answered, with the binary and the output that are answered here.
pub proof fn answers_are_of_whole_code(steps: Seq<CacheStep>, j: int) -> (at: (int, int))
    requires
        service_history(steps),
        0 <= j < steps.len(),
        steps[j] is Built || steps[j] is Kept || steps[j] is Shared,
    ensures
        0 <= at.0 < at.1 <= j,
        ({
            &&& steps[at.0] matches CacheStep::Missed {
                request,
                action: AnswerAction::Build(build),
            }
            &&& build.code@ == request.code@
            &&& digest::sha256_digest(vstd::utf8::encode_utf8(build.code@))
                == digest::sha256_digest(vstd::utf8::encode_utf8(steps[j].code()))
            &&& steps[at.1] matches CacheStep::Built { request: built, answer, .. }
            &&& built == request
            &&& answer matches Ok(output) ==> {
                &&& steps[j].answer() matches Some(Ok(response))
                &&& response.wasm_binary@ == output.response.code@
                &&& response.stdout@ == output.stdout@
                &&& response.stderr@ == output.stderr@
            }
            &&& answer is Err ==> (steps[j].answer() matches Some(
                Err(CompilerError::CompilationError(_)),
            ))
        }),
{
    let i = if steps[j] is Built {
        j
    } else {
        found_answers_are_for_the_same_digest(steps, j)
    };
    lemma_prefix(steps, i);
    let before = steps.take(i);
    lemma_building(before);
    let key = steps[i].key();
    let building = keeping_after(before).building;
    assert(building.dom().contains(key));
    let m = choose|m: int| missed_at(before, m, building[key]);
    assert(before[m] == steps[m]);
    lemma_prefix(steps, m);
    service::keys_tell_digests_apart(steps[i].code(), steps[j].code());
    (m, i)
}

/// A failure is answered with a compilation error and is not kept: the next request
/// for the same code that shares no compilation has a container asked again.
pub proof fn failure_is_not_kept(steps: Seq<CacheStep>, i: int, j: int)
    requires
        service_history(steps),
        0 <= i < j < steps.len(),
        steps[i] is Built,
        steps[i].answer() matches Some(Err(_)),
        steps[j].key() == steps[i].key(),
        steps[j] is Kept || steps[j] is Missed,
        forall|k: int| i < k < j ==> !(#[trigger] steps[k] is Built && steps[k].key()
            == steps[i].key()),
    ensures
        steps[i].answer()->0->Err_0 is CompilationError,
        steps[j] is Missed,
        steps[j]->Missed_action is Build,
{
    lemma_prefix(steps, i);
    lemma_prefix(steps, j);
    lemma_nothing_kept(steps, i, j);
}

proof fn lemma_nothing_kept(steps: Seq<CacheStep>, i: int, j: int)
    requires
        service_history(steps),
        0 <= i < j <= steps.len(),
        steps[i] is Built,
        steps[i].answer() matches Some(Err(_)),
        forall|k: int| i < k < j ==> !(#[trigger] steps[k] is Built && steps[k].key()
            == steps[i].key()),
    ensures
        !keeping_after(steps.take(j)).kept.dom().contains(steps[i].key()),
    decreases j,
{
    lemma_prefix(steps, j - 1);
    lemma_kept(steps.take(j - 1));
    if j - 1 > i {
        lemma_nothing_kept(steps, i, j - 1);
        assert(!(steps[j - 1] is Built && steps[j - 1].key() == steps[i].key()));
    }
}

/// Every error that a request is answered with is a compilation error.
pub proof fn only_compilation_errors_are_answered(steps: Seq<CacheStep>, j: int)
    requires
        service_history(steps),
        0 <= j < steps.len(),
    ensures
        steps[j].answer() matches Some(Err(error)) ==> error is CompilationError,
{
    lemma_prefix(steps, j);
    if steps[j] is Kept || steps[j] is Shared {
        let i = found_answers_are_for_the_same_digest(steps, j);
        lemma_prefix(steps, i);
    }
}

/// Requests for the same code are not compiled at the same time: the second of two
/// is compiled only after a compilation was concluded, or dropped.
pub proof fn one_compilation_at_a_time(steps: Seq<CacheStep>, i: int, j: int)
    requires
        service_history(steps),
        0 <= i < j < steps.len(),
        steps[i] is Missed,
        steps[j] is Missed,
        steps[i].key() == steps[j].key(),
    ensures
        exists|k: int| i < k < j && (#[trigger] steps[k]).ends(steps[i].key()),
{
    lemma_prefix(steps, j);
    if forall|k: int| i < k < j ==> !(#[trigger] steps[k]).ends(steps[i].key()) {
        lemma_still_building(steps, i, j);
    }
}

proof fn lemma_still_building(steps: Seq<CacheStep>, i: int, j: int)
    requires
        service_history(steps),
        0 <= i < j <= steps.len(),
        steps[i] is Missed,
        forall|k: int| i < k < j ==> !(#[trigger] steps[k]).ends(steps[i].key()),
    ensures
        ({
            let building = keeping_after(steps.take(j)).building;
            &&& building.dom().contains(steps[i].key())
            &&& building[steps[i].key()] == steps[i]->Missed_request
        }),
    decreases j,
{
    lemma_prefix(steps, j - 1);
    if j - 1 > i {
        lemma_still_building(steps, i, j - 1);
        assert(!steps[j - 1].ends(steps[i].key()));
    }
}

/// A request that waits while another one, begun in step `m`, is compiled is
/// answered as that one is.
proof fn lemma_answered_alike(steps: Seq<CacheStep>, m: int, a: int)
    requires
        service_history(steps),
        0 <= m < a < steps.len(),
        steps[m] is Missed,
        steps[a] is Shared,
        steps[a].key() == steps[m].key(),
        m < steps[a]->waited,
        forall|k: int| m < k < steps[a]->waited ==> !(#[trigger] steps[k]).ends(steps[m].key()),
    ensures
        m < steps[a]->waited < steps[a]->by < a,
        steps[steps[a]->by] is Built,
        steps[steps[a]->by]->Built_request == steps[m]->Missed_request,
        steps[steps[a]->by].key() == steps[m].key(),
        steps[a].answer() == steps[steps[a]->by].answer(),
        forall|k: int| m < k < steps[a]->by ==> !(#[trigger] steps[k]).ends(steps[m].key()),
{
    let key = steps[m].key();
    let waited = steps[a]->waited;
    let by = steps[a]->by;
    let before = steps.take(a);
    lemma_prefix(steps, a);
    assert(before[waited] == steps[waited] && before[by] == steps[by]);
    assert forall|k: int| m < k < by implies !(#[trigger] steps[k]).ends(key) by {
        if k > waited {
            assert(before[k] == steps[k]);
        }
    }
    lemma_still_building(steps, m, by);
    lemma_prefix(steps, by);
    lemma_kept(steps.take(by));
    assert(keeping_after(steps.take(by)).building.dom().contains(key));
}

/// All requests for the same code that wait while one, begun in step `m`, is compiled
/// share that compilation: each is answered as that one is.
pub proof fn requests_at_once_get_one_answer(steps: Seq<CacheStep>, m: int, a: int, b: int)
    requires
        service_history(steps),
        0 <= m < a < steps.len(),
        m < b < steps.len(),
        steps[m] is Missed,
        steps[a] is Shared,
        steps[b] is Shared,
        steps[a].key() == steps[m].key(),
        steps[b].key() == steps[m].key(),
        m < steps[a]->waited,
        m < steps[b]->waited,
        forall|k: int| m < k < steps[a]->waited ==> !(#[trigger] steps[k]).ends(steps[m].key()),
        forall|k: int| m < k < steps[b]->waited ==> !(#[trigger] steps[k]).ends(steps[m].key()),
    ensures
        steps[a]->by == steps[b]->by,
        steps[steps[a]->by] is Built,
        steps[steps[a]->by]->Built_request == steps[m]->Missed_request,
        steps[a].answer() == steps[steps[a]->by].answer(),
        steps[b].answer() == steps[a].answer(),
{
    lemma_answered_alike(steps, m, a);
    lemma_answered_alike(steps, m, b);
    assert(steps[steps[a]->by].ends(steps[m].key()));
    assert(steps[steps[b]->by].ends(steps[m].key()));
}

} // verus!
