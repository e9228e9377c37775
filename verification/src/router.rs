//! The task router: task types, model selection, the fallback chain and the
//! routing decision.
use vstd::prelude::*;
use vstd::string::StringExecFns;
use crate::governor::{
    classify_pressure, tune_generation, tuned_max_tokens, GenerationOptions, Qos, RuntimePolicy,
};
use crate::pressure::{LiveSystemStats, PressureLevel};
use crate::text::{
    contains, has_substring, lowercase, same_text, texts, to_lowercase, trim, trimmed,
};

verus! {

/// Most entries of a fallback chain.
pub const FALLBACK_CHAIN_MAX: usize = 3;

/// What kind of work a request asks for.
#[derive(Clone, Copy, Debug, PartialEq, Eq, Hash, Structural)]
pub enum TaskType {
    Chat,
    Code,
    Reasoning,
    RetrievalHeavy,
    ToolHeavy,
}

impl TaskType {
    /// The task type's name in snake case.
    pub open spec fn name(self) -> Seq<char> {
        match self {
            TaskType::Chat => "chat"@,
            TaskType::Code => "code"@,
            TaskType::Reasoning => "reasoning"@,
            TaskType::RetrievalHeavy => "retrieval_heavy"@,
            TaskType::ToolHeavy => "tool_heavy"@,
        }
    }

    /// The task type that a name on the allow-list stands for.
    pub open spec fn named(name: Seq<char>) -> Option<TaskType> {
        if name == "chat"@ {
            Some(TaskType::Chat)
        } else if name == "code"@ {
            Some(TaskType::Code)
        } else if name == "reasoning"@ {
            Some(TaskType::Reasoning)
        } else if name == "retrieval_heavy"@ {
            Some(TaskType::RetrievalHeavy)
        } else if name == "tool_heavy"@ {
            Some(TaskType::ToolHeavy)
        } else {
            None
        }
    }

    /// The task type that a name stands for, `Chat` for a name off the list.
    pub open spec fn named_or_chat(name: Seq<char>) -> TaskType {
        match TaskType::named(name) {
            Some(task) => task,
            None => TaskType::Chat,
        }
    }

    /// Tokens that a request of this type asks for before tuning.
    pub open spec fn base_tokens(self) -> int {
        match self {
            TaskType::Reasoning => 1_024,
            TaskType::Code => 768,
            TaskType::RetrievalHeavy => 640,
            TaskType::ToolHeavy => 384,
            TaskType::Chat => 512,
        }
    }

    /// The lane that a request of this type takes where none is asked for.
    pub open spec fn usual_qos(self) -> Qos {
        match self {
            TaskType::Reasoning => Qos::MaxQuality,
            TaskType::ToolHeavy => Qos::Fast,
            _ => Qos::Balanced,
        }
    }

    /// The task type's name in snake case.
    pub fn as_str(&self) -> (s: &'static str)
        ensures
            s@ == self.name(),
    {
        match self {
            TaskType::Chat => "chat",
            TaskType::Code => "code",
            TaskType::Reasoning => "reasoning",
            TaskType::RetrievalHeavy => "retrieval_heavy",
            TaskType::ToolHeavy => "tool_heavy",
        }
    }

    /// Reads an exact name off the allow-list.
    pub fn parse(name: &str) -> (task: Option<TaskType>)
        ensures
            task == TaskType::named(name@),
    {
        if same_text(name, "chat") {
            Some(TaskType::Chat)
        } else if same_text(name, "code") {
            Some(TaskType::Code)
        } else if same_text(name, "reasoning") {
            Some(TaskType::Reasoning)
        } else if same_text(name, "retrieval_heavy") {
            Some(TaskType::RetrievalHeavy)
        } else if same_text(name, "tool_heavy") {
            Some(TaskType::ToolHeavy)
        } else {
            None
        }
    }
}

/// The lane that a name on the allow-list stands for.
pub open spec fn qos_named(name: Seq<char>) -> Option<Qos> {
    if name == "fast"@ {
        Some(Qos::Fast)
    } else if name == "balanced"@ {
        Some(Qos::Balanced)
    } else if name == "max_quality"@ {
        Some(Qos::MaxQuality)
    } else {
        None
    }
}

/// The lane that a name stands for, `Balanced` for a name off the list.
pub open spec fn qos_named_or_balanced(name: Seq<char>) -> Qos {
    match qos_named(name) {
        Some(qos) => qos,
        None => Qos::Balanced,
    }
}

/// Reads an exact lane name off the allow-list.
pub fn parse_qos(name: &str) -> (qos: Option<Qos>)
    ensures
        qos == qos_named(name@),
{
    if same_text(name, "fast") {
        Some(Qos::Fast)
    } else if same_text(name, "balanced") {
        Some(Qos::Balanced)
    } else if same_text(name, "max_quality") {
        Some(Qos::MaxQuality)
    } else {
        None
    }
}

/// Reads a task type that a caller names: surrounding blanks and letter case do
/// not matter, and a name off the list stands for `Chat`.
pub fn normalize_task_type(value: &str) -> (task: TaskType)
    ensures
        task == TaskType::named_or_chat(lowercase(trimmed(value@))),
{
    let folded = to_lowercase(trim(value));
    match TaskType::parse(folded.as_str()) {
        Some(task) => task,
        None => TaskType::Chat,
    }
}

/// Reads a lane that a caller names: surrounding blanks and letter case do not
/// matter, and a name off the list stands for `Balanced`.
pub fn normalize_qos(value: &str) -> (qos: Qos)
    ensures
        qos == qos_named_or_balanced(lowercase(trimmed(value@))),
{
    let folded = to_lowercase(trim(value));
    match parse_qos(folded.as_str()) {
        Some(qos) => qos,
        None => Qos::Balanced,
    }
}

/// The task type that the words of a lower-cased request point to. The first
/// bucket with a hit wins: code, reasoning, retrieval, tools; else chat.
pub open spec fn task_type_of(lowered: Seq<char>) -> TaskType {
    if has_substring(lowered, "debug"@) || has_substring(lowered, "error"@) || has_substring(
        lowered,
        "stack trace"@,
    ) || has_substring(lowered, "refactor"@) {
        TaskType::Code
    } else if has_substring(lowered, "analy"@) || has_substring(lowered, "reason"@)
        || has_substring(lowered, "compare"@) || has_substring(lowered, "tradeoff"@) {
        TaskType::Reasoning
    } else if has_substring(lowered, "document"@) || has_substring(lowered, "source"@)
        || has_substring(lowered, "citation"@) {
        TaskType::RetrievalHeavy
    } else if has_substring(lowered, "tool"@) || has_substring(lowered, "calendar"@)
        || has_substring(lowered, "spotify"@) || has_substring(lowered, "run"@) {
        TaskType::ToolHeavy
    } else {
        TaskType::Chat
    }
}

/// Infers the task type from a request that is already in lower case.
pub fn infer_task_type_lowered(lowered: &str) -> (task: TaskType)
    ensures
        task == task_type_of(lowered@),
{
    if contains(lowered, "debug") || contains(lowered, "error") || contains(lowered, "stack trace")
        || contains(lowered, "refactor") {
        TaskType::Code
    } else if contains(lowered, "analy") || contains(lowered, "reason") || contains(
        lowered,
        "compare",
    ) || contains(lowered, "tradeoff") {
        TaskType::Reasoning
    } else if contains(lowered, "document") || contains(lowered, "source") || contains(
        lowered,
        "citation",
    ) {
        TaskType::RetrievalHeavy
    } else if contains(lowered, "tool") || contains(lowered, "calendar") || contains(
        lowered,
        "spotify",
    ) || contains(lowered, "run") {
        TaskType::ToolHeavy
    } else {
        TaskType::Chat
    }
}

/// Infers the task type from the words of a request.
pub fn infer_task_type(content: &str) -> (task: TaskType)
    ensures
        task == task_type_of(lowercase(content@)),
{
    let lowered = to_lowercase(content);
    infer_task_type_lowered(lowered.as_str())
}

/// The lane that a task type takes where the caller names none.
pub fn default_qos(task_type: TaskType) -> (qos: Qos)
    ensures
        qos == task_type.usual_qos(),
{
    match task_type {
        TaskType::Reasoning => Qos::MaxQuality,
        TaskType::ToolHeavy => Qos::Fast,
        _ => Qos::Balanced,
    }
}

/// Tokens that a task type asks for before tuning.
pub fn base_max_tokens(task_type: TaskType) -> (tokens: usize)
    ensures
        tokens == task_type.base_tokens(),
{
    match task_type {
        TaskType::Reasoning => 1_024,
        TaskType::Code => 768,
        TaskType::RetrievalHeavy => 640,
        TaskType::ToolHeavy => 384,
        TaskType::Chat => 512,
    }
}

/// An installed model as the registry lists it.
#[derive(Debug)]
pub struct Model {
    pub id: String,
    pub name: String,
    pub display_name: String,
    pub file_path: Option<String>,
    /// 1 for the model that is marked as the default.
    pub is_default: i64,
    pub context_length: i64,
    pub performance_tier: String,
}

impl Clone for Model {
    fn clone(&self) -> (copy: Self)
        ensures
            copy == *self,
    {
        Model {
            id: self.id.clone(),
            name: self.name.clone(),
            display_name: self.display_name.clone(),
            file_path: match &self.file_path {
                Some(path) => Some(path.clone()),
                None => None,
            },
            is_default: self.is_default,
            context_length: self.context_length,
            performance_tier: self.performance_tier.clone(),
        }
    }
}

/// The model at `i` is marked as the default.
pub open spec fn is_default_at(installed: Seq<Model>, i: int) -> bool {
    0 <= i < installed.len() && installed[i].is_default == 1
}

/// The model at `i` is of the fast tier.
pub open spec fn is_fast_at(installed: Seq<Model>, i: int) -> bool {
    0 <= i < installed.len() && installed[i].performance_tier@ == "fast"@
}

/// `i` is the first model marked as the default.
pub open spec fn first_default(installed: Seq<Model>, i: int) -> bool {
    is_default_at(installed, i) && forall|j: int| 0 <= j < i ==> !is_default_at(installed, j)
}

/// No model is marked as the default.
pub open spec fn no_default(installed: Seq<Model>) -> bool {
    forall|j: int| !is_default_at(installed, j)
}

/// `i` is the first model of the fast tier.
pub open spec fn first_fast(installed: Seq<Model>, i: int) -> bool {
    is_fast_at(installed, i) && forall|j: int| 0 <= j < i ==> !is_fast_at(installed, j)
}

/// No model is of the fast tier.
pub open spec fn no_fast(installed: Seq<Model>) -> bool {
    forall|j: int| !is_fast_at(installed, j)
}

/// `i` is the model with the longest context among those outside the fast tier,
/// the last of them where several share that length.
pub open spec fn best_context(installed: Seq<Model>, i: int) -> bool {
    &&& 0 <= i < installed.len()
    &&& !is_fast_at(installed, i)
    &&& forall|j: int|
        0 <= j < installed.len() && !is_fast_at(installed, j) ==> installed[j].context_length
            <= installed[i].context_length
    &&& forall|j: int|
        i < j < installed.len() && !is_fast_at(installed, j) ==> installed[j].context_length
            < installed[i].context_length
}

/// Every model is of the fast tier.
pub open spec fn all_fast(installed: Seq<Model>) -> bool {
    forall|j: int| 0 <= j < installed.len() ==> is_fast_at(installed, j)
}

/// `pick` is the position of the model that serves a request: none where nothing
/// is installed; the default for balanced chat; else the first fast model for the
/// fast lane; else the longest context outside the fast tier for the quality lane
/// and for reasoning; else the default; else the first model.
pub open spec fn is_selection(
    installed: Seq<Model>,
    task: TaskType,
    qos: Qos,
    pick: Option<int>,
) -> bool {
    if installed.len() == 0 {
        pick is None
    } else {
        &&& pick is Some
        &&& if qos == Qos::Balanced && task == TaskType::Chat && !no_default(installed) {
            first_default(installed, pick->0)
        } else if qos == Qos::Fast && !no_fast(installed) {
            first_fast(installed, pick->0)
        } else if (qos == Qos::MaxQuality || task == TaskType::Reasoning) && !all_fast(installed) {
            best_context(installed, pick->0)
        } else if !no_default(installed) {
            first_default(installed, pick->0)
        } else {
            pick->0 == 0
        }
    }
}

/// The position of the model that serves a request.
pub open spec fn selection(installed: Seq<Model>, task: TaskType, qos: Qos) -> Option<int> {
    choose|pick: Option<int>| is_selection(installed, task, qos, pick)
}

/// The model that serves a request.
pub open spec fn selected_model(installed: Seq<Model>, task: TaskType, qos: Qos) -> Option<Model> {
    match selection(installed, task, qos) {
        Some(i) => Some(installed[i]),
        None => None,
    }
}

/// A request has at most one selection.
pub proof fn lemma_selection_unique(
    installed: Seq<Model>,
    task: TaskType,
    qos: Qos,
    a: Option<int>,
    b: Option<int>,
)
    requires
        is_selection(installed, task, qos, a),
        is_selection(installed, task, qos, b),
    ensures
        a == b,
{
    if installed.len() > 0 {
        let i = a->0;
        let j = b->0;
        if first_default(installed, i) && first_default(installed, j) {
            if i < j {
                assert(!is_default_at(installed, i));
            }
            if j < i {
                assert(!is_default_at(installed, j));
            }
        }
        if first_fast(installed, i) && first_fast(installed, j) {
            if i < j {
                assert(!is_fast_at(installed, i));
            }
            if j < i {
                assert(!is_fast_at(installed, j));
            }
        }
        if best_context(installed, i) && best_context(installed, j) {
            if i < j {
                assert(installed[j].context_length < installed[i].context_length);
                assert(installed[i].context_length <= installed[j].context_length);
            }
            if j < i {
                assert(installed[i].context_length < installed[j].context_length);
                assert(installed[j].context_length <= installed[i].context_length);
            }
        }
    }
}

fn find_default(installed: &[Model]) -> (found: Option<usize>)
    ensures
        match found {
            Some(i) => first_default(installed@, i as int),
            None => no_default(installed@),
        },
{
    let mut i: usize = 0;
    while i < installed.len()
        invariant
            i <= installed.len(),
            forall|j: int| 0 <= j < i ==> !is_default_at(installed@, j),
        decreases installed.len() - i,
    {
        if installed[i].is_default == 1 {
            return Some(i);
        }
        i = i + 1;
    }
    None
}

fn find_fast(installed: &[Model]) -> (found: Option<usize>)
    ensures
        match found {
            Some(i) => first_fast(installed@, i as int),
            None => no_fast(installed@),
        },
{
    let mut i: usize = 0;
    while i < installed.len()
        invariant
            i <= installed.len(),
            forall|j: int| 0 <= j < i ==> !is_fast_at(installed@, j),
        decreases installed.len() - i,
    {
        if same_text(installed[i].performance_tier.as_str(), "fast") {
            return Some(i);
        }
        i = i + 1;
    }
    None
}

fn find_best_context(installed: &[Model]) -> (found: Option<usize>)
    ensures
        match found {
            Some(i) => best_context(installed@, i as int),
            None => all_fast(installed@),
        },
{
    let mut best: Option<usize> = None;
    let mut i: usize = 0;
    while i < installed.len()
        invariant
            i <= installed.len(),
            match best {
                Some(b) => {
                    &&& b < i
                    &&& !is_fast_at(installed@, b as int)
                    &&& forall|j: int|
                        0 <= j < i && !is_fast_at(installed@, j) ==> installed@[j].context_length
                            <= installed@[b as int].context_length
                    &&& forall|j: int|
                        b < j < i && !is_fast_at(installed@, j) ==> installed@[j].context_length
                            < installed@[b as int].context_length
                },
                None => forall|j: int| 0 <= j < i ==> is_fast_at(installed@, j),
            },
        decreases installed.len() - i,
    {
        if !same_text(installed[i].performance_tier.as_str(), "fast") {
            let better = match best {
                Some(b) => installed[i].context_length >= installed[b].context_length,
                None => true,
            };
            if better {
                best = Some(i);
            }
        }
        i = i + 1;
    }
    best
}

/// Picks the position of the model that serves a request.
pub fn select_index(installed: &[Model], task_type: TaskType, qos: Qos) -> (pick: Option<usize>)
    ensures
        is_selection(
            installed@,
            task_type,
            qos,
            match pick {
                Some(i) => Some(i as int),
                None => None,
            },
        ),
        pick is Some ==> pick->0 < installed.len(),
        pick is None <==> installed.len() == 0,
{
    if installed.len() == 0 {
        return None;
    }
    let default_model = find_default(installed);
    let balanced_chat = match (qos, task_type) {
        (Qos::Balanced, TaskType::Chat) => true,
        _ => false,
    };
    if balanced_chat && default_model.is_some() {
        return default_model;
    }
    let fast_lane = match qos {
        Qos::Fast => true,
        _ => false,
    };
    if fast_lane {
        let fast = find_fast(installed);
        if fast.is_some() {
            return fast;
        }
    }
    let wants_quality = match (qos, task_type) {
        (Qos::MaxQuality, _) => true,
        (_, TaskType::Reasoning) => true,
        _ => false,
    };
    if wants_quality {
        let best = find_best_context(installed);
        if best.is_some() {
            return best;
        }
    }
    match default_model {
        Some(i) => Some(i),
        None => Some(0),
    }
}

/// Picks the model that serves a request.
pub fn select_model(installed: &[Model], task_type: TaskType, qos: Qos) -> (selected: Option<Model>)
    ensures
        selected == selected_model(installed@, task_type, qos),
        selected is None <==> installed.len() == 0,
{
    let pick = select_index(installed, task_type, qos);
    proof {
        let found = match pick {
            Some(i) => Some(i as int),
            None => None,
        };
        lemma_selection_unique(
            installed@,
            task_type,
            qos,
            found,
            selection(installed@, task_type, qos),
        );
    }
    match pick {
        Some(i) => Some(installed[i].clone()),
        None => None,
    }
}

/// The ids of the models among the first `n` that are not the selected one, in
/// their order.
pub open spec fn others_before(
    installed: Seq<Model>,
    selected: Option<Seq<char>>,
    n: int,
) -> Seq<Seq<char>>
    decreases n,
{
    if n <= 0 {
        Seq::empty()
    } else {
        let rest = others_before(installed, selected, n - 1);
        if n <= installed.len() && selected != Some(installed[n - 1].id@) {
            rest.push(installed[n - 1].id@)
        } else {
            rest
        }
    }
}

/// The first entries of a list, three at most.
pub open spec fn first_three(ids: Seq<Seq<char>>) -> Seq<Seq<char>> {
    if ids.len() <= FALLBACK_CHAIN_MAX {
        ids
    } else {
        ids.take(FALLBACK_CHAIN_MAX as int)
    }
}

/// The fallback chain: the ids of the installed models other than the selected
/// one, in their order, three at most.
pub open spec fn fallback_ids(
    installed: Seq<Model>,
    selected: Option<Seq<char>>,
) -> Seq<Seq<char>> {
    first_three(others_before(installed, selected, installed.len() as int))
}

/// No id among the others is the selected one.
pub proof fn lemma_others_exclude_selected(
    installed: Seq<Model>,
    selected: Option<Seq<char>>,
    n: int,
)
    ensures
        forall|k: int|
            0 <= k < others_before(installed, selected, n).len() ==> selected != Some(
                #[trigger] others_before(installed, selected, n)[k],
            ),
    decreases n,
{
    if n > 0 {
        lemma_others_exclude_selected(installed, selected, n - 1);
        let rest = others_before(installed, selected, n - 1);
        let all = others_before(installed, selected, n);
        assert forall|k: int| 0 <= k < all.len() implies selected != Some(#[trigger] all[k]) by {
            if k < rest.len() {
                assert(all[k] == rest[k]);
            }
        }
    }
}

/// The fallback chain excludes the selection: whatever is installed, the chain
/// of a routed request holds at most three ids, none of them the id of the model
/// that was selected.
pub proof fn lemma_fallback_excludes_selection(installed: Seq<Model>, task: TaskType, qos: Qos)
    ensures
        ({
            let selected = match selected_model(installed, task, qos) {
                Some(model) => Some(model.id@),
                None => None,
            };
            let chain = fallback_ids(installed, selected);
            &&& chain.len() <= FALLBACK_CHAIN_MAX
            &&& forall|k: int| 0 <= k < chain.len() ==> selected != Some(#[trigger] chain[k])
        }),
{
    let selected = match selected_model(installed, task, qos) {
        Some(model) => Some(model.id@),
        None => None,
    };
    lemma_others_exclude_selected(installed, selected, installed.len() as int);
    let others = others_before(installed, selected, installed.len() as int);
    let chain = fallback_ids(installed, selected);
    assert forall|k: int| 0 <= k < chain.len() implies selected != Some(#[trigger] chain[k]) by {
        assert(chain[k] == others[k]);
    }
}

/// Builds the fallback chain for a selection.
pub fn fallback_chain(installed: &[Model], selected: Option<&str>) -> (chain: Vec<String>)
    ensures
        texts(chain@) == fallback_ids(
            installed@,
            match selected {
                Some(id) => Some(id@),
                None => None,
            },
        ),
        chain.len() <= FALLBACK_CHAIN_MAX,
{
    let ghost chosen: Option<Seq<char>> = match selected {
        Some(id) => Some(id@),
        None => None,
    };
    let mut chain: Vec<String> = Vec::new();
    let mut i: usize = 0;
    while i < installed.len()
        invariant
            i <= installed.len(),
            chosen == match selected {
                Some(id) => Some(id@),
                None => None,
            },
            chain.len() <= FALLBACK_CHAIN_MAX,
            chain.len() == FALLBACK_CHAIN_MAX || chain.len() == others_before(
                installed@,
                chosen,
                i as int,
            ).len(),
            chain.len() <= others_before(installed@, chosen, i as int).len(),
            texts(chain@) =~= first_three(others_before(installed@, chosen, i as int)),
        decreases installed.len() - i,
    {
        let ghost seen = others_before(installed@, chosen, i as int);
        let ghost held = chain@;
        let differs = match selected {
            Some(id) => !same_text(id, installed[i].id.as_str()),
            None => true,
        };
        assert(differs == (chosen != Some(installed@[i as int].id@)));
        if differs && chain.len() < FALLBACK_CHAIN_MAX {
            chain.push(installed[i].id.clone());
            assert(texts(chain@) =~= texts(held).push(installed@[i as int].id@));
        }
        proof {
            let next = others_before(installed@, chosen, i + 1);
            if differs {
                assert(next == seen.push(installed@[i as int].id@));
                if held.len() == FALLBACK_CHAIN_MAX {
                    assert(first_three(next) =~= first_three(seen));
                } else {
                    assert(first_three(next) =~= first_three(seen).push(installed@[i as int].id@));
                }
            } else {
                assert(next == seen);
            }
        }
        i = i + 1;
    }
    chain
}

/// The outcome of routing one request.
#[derive(Debug)]
pub struct RoutingDecision {
    pub task_type: TaskType,
    pub qos: Qos,
    pub selected_model_id: Option<String>,
    pub selected_model_name: Option<String>,
    pub max_tokens: usize,
    pub pressure_level: PressureLevel,
    pub reason: String,
    pub fallback_chain: Vec<String>,
}

/// A request for a routing decision that is only shown, not recorded.
#[derive(Clone, Debug)]
pub struct RoutingPreviewRequest {
    pub user_id: String,
    pub session_id: Option<String>,
    pub content: String,
    pub task_type: Option<String>,
    pub qos: Option<String>,
}

/// The decimal digit of a count of at most three.
pub open spec fn chain_length_text(n: int) -> Seq<char> {
    if n == 0 {
        "0"@
    } else if n == 1 {
        "1"@
    } else if n == 2 {
        "2"@
    } else {
        "3"@
    }
}

/// The reason recorded with a routed request.
pub open spec fn reason_text(
    task: TaskType,
    qos: Qos,
    pressure: PressureLevel,
    chain_length: int,
) -> Seq<char> {
    "task="@ + task.name() + ", qos="@ + qos.name() + ", pressure="@ + pressure.name()
        + ", fallback="@ + chain_length_text(chain_length)
}

fn describe_route(
    task: TaskType,
    qos: Qos,
    pressure: PressureLevel,
    chain_length: usize,
) -> (reason: String)
    requires
        chain_length <= FALLBACK_CHAIN_MAX,
    ensures
        reason@ == reason_text(task, qos, pressure, chain_length as int),
{
    let mut reason = "task=".to_owned();
    reason.append(task.as_str());
    reason.append(", qos=");
    reason.append(qos.as_str());
    reason.append(", pressure=");
    reason.append(pressure.as_str());
    reason.append(", fallback=");
    reason.append(
        if chain_length == 0 {
            "0"
        } else if chain_length == 1 {
            "1"
        } else if chain_length == 2 {
            "2"
        } else {
            "3"
        },
    );
    reason
}

/// The task type of a request: the one that the caller names, else the one that
/// the words of the request point to.
pub open spec fn routed_task(content: Seq<char>, task_type: Option<Seq<char>>) -> TaskType {
    match task_type {
        Some(name) => TaskType::named_or_chat(lowercase(trimmed(name))),
        None => task_type_of(lowercase(content)),
    }
}

/// The lane of a request: the one that the caller names, else the usual one of
/// its task type.
pub open spec fn routed_qos(task: TaskType, qos: Option<Seq<char>>) -> Qos {
    match qos {
        Some(name) => qos_named_or_balanced(lowercase(trimmed(name))),
        None => task.usual_qos(),
    }
}

/// The view of an optional text.
pub open spec fn text_of(value: Option<&str>) -> Option<Seq<char>> {
    match value {
        Some(v) => Some(v@),
        None => None,
    }
}

/// `decision` routes a request of the given task type and lane under the given
/// policy, reading and models; `recorded` tells a routed request, which carries
/// its reason, from a preview.
pub open spec fn is_route(
    decision: RoutingDecision,
    task: TaskType,
    qos: Qos,
    is_background: bool,
    policy: RuntimePolicy,
    stats: LiveSystemStats,
    installed: Seq<Model>,
    recorded: bool,
) -> bool {
    let chosen = selected_model(installed, task, qos);
    &&& decision.task_type == task
    &&& decision.qos == qos
    &&& decision.pressure_level == policy.pressure(stats)
    &&& decision.selected_model_id == match chosen {
        Some(model) => Some(model.id),
        None => None,
    }
    &&& decision.selected_model_name == match chosen {
        Some(model) => Some(model.display_name),
        None => None,
    }
    &&& decision.max_tokens == tuned_max_tokens(
        task.base_tokens(),
        policy.lane_cap(is_background) as int,
        qos,
        policy.pressure(stats),
    )
    &&& texts(decision.fallback_chain@) == fallback_ids(
        installed,
        match chosen {
            Some(model) => Some(model.id@),
            None => None,
        },
    )
    &&& decision.reason@ == if recorded {
        reason_text(task, qos, policy.pressure(stats), decision.fallback_chain@.len() as int)
    } else {
        "preview"@
    }
}

fn decide(
    task: TaskType,
    qos: Qos,
    is_background: bool,
    policy: &RuntimePolicy,
    stats: &LiveSystemStats,
    installed: &[Model],
    recorded: bool,
) -> (decision: RoutingDecision)
    ensures
        is_route(decision, task, qos, is_background, *policy, *stats, installed@, recorded),
{
    let pressure = classify_pressure(stats, policy);
    let selected = select_model(installed, task, qos);
    let base = GenerationOptions {
        temperature_milli: 200,
        top_p_milli: 950,
        max_tokens: base_max_tokens(task),
    };
    let tuned = tune_generation(base, policy, qos, pressure, is_background);
    let chain = match &selected {
        Some(model) => fallback_chain(installed, Some(model.id.as_str())),
        None => fallback_chain(installed, None),
    };
    let reason = if recorded {
        describe_route(task, qos, pressure, chain.len())
    } else {
        "preview".to_owned()
    };
    let (selected_model_id, selected_model_name) = match selected {
        Some(model) => (Some(model.id), Some(model.display_name)),
        None => (None, None),
    };
    RoutingDecision {
        task_type: task,
        qos,
        selected_model_id,
        selected_model_name,
        max_tokens: tuned.max_tokens,
        pressure_level: pressure,
        reason,
        fallback_chain: chain,
    }
}

/// Routes a request whose task type and lane are settled.
pub fn route_resolved(
    task: TaskType,
    qos: Qos,
    is_background: bool,
    policy: &RuntimePolicy,
    stats: &LiveSystemStats,
    installed: &[Model],
) -> (decision: RoutingDecision)
    ensures
        is_route(decision, task, qos, is_background, *policy, *stats, installed@, true),
{
    decide(task, qos, is_background, policy, stats, installed, true)
}

fn resolve_task(content: &str, task_type: Option<&str>) -> (task: TaskType)
    ensures
        task == routed_task(content@, text_of(task_type)),
{
    match task_type {
        Some(name) => normalize_task_type(name),
        None => infer_task_type(content),
    }
}

fn resolve_qos(task: TaskType, qos: Option<&str>) -> (lane: Qos)
    ensures
        lane == routed_qos(task, text_of(qos)),
{
    match qos {
        Some(name) => normalize_qos(name),
        None => default_qos(task),
    }
}

/// Routes a request: settles its task type and lane, reads the pressure, selects
/// a model with its fallback chain and tunes the token budget of the task type.
pub fn route(
    content: &str,
    task_type: Option<&str>,
    qos: Option<&str>,
    is_background: bool,
    policy: &RuntimePolicy,
    stats: &LiveSystemStats,
    installed: &[Model],
) -> (decision: RoutingDecision)
    ensures
        is_route(
            decision,
            routed_task(content@, text_of(task_type)),
            routed_qos(routed_task(content@, text_of(task_type)), text_of(qos)),
            is_background,
            *policy,
            *stats,
            installed@,
            true,
        ),
{
    let task = resolve_task(content, task_type);
    let lane = resolve_qos(task, qos);
    decide(task, lane, is_background, policy, stats, installed, true)
}

/// Routes a request for display only: as `route` on the interactive lane, with
/// the reason `preview`.
pub fn preview(
    content: &str,
    task_type: Option<&str>,
    qos: Option<&str>,
    policy: &RuntimePolicy,
    stats: &LiveSystemStats,
    installed: &[Model],
) -> (decision: RoutingDecision)
    ensures
        is_route(
            decision,
            routed_task(content@, text_of(task_type)),
            routed_qos(routed_task(content@, text_of(task_type)), text_of(qos)),
            false,
            *policy,
            *stats,
            installed@,
            false,
        ),
{
    let task = resolve_task(content, task_type);
    let lane = resolve_qos(task, qos);
    decide(task, lane, false, policy, stats, installed, false)
}

} // verus!
