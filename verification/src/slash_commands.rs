//! Which slash commands a terminal offers, and how a typed query is matched
//! against their names.
//!
//! The offered commands are recomputed from the terminal's session whenever
//! something they depend on changes: the working directory, the agent view,
//! CLI subagent control, the AI and input settings, or the CLI agent input of
//! this terminal.
use vstd::prelude::*;
use vstd::string::*;
use vstd::utf8::*;

use crate::shell::push_char;

verus! {

broadcast use vstd::string::group_string_axioms;

/// The conditions of a session that a command can require.
pub struct Availability {
    pub agent_view: bool,
    pub terminal_view: bool,
    pub local: bool,
    pub repository: bool,
    pub no_lrc_control: bool,
    pub active_conversation: bool,
    pub ai_enabled: bool,
}

impl Availability {
    /// Whether every condition that `required` sets is set here too.
    pub open spec fn includes(self, required: Availability) -> bool {
        &&& required.agent_view ==> self.agent_view
        &&& required.terminal_view ==> self.terminal_view
        &&& required.local ==> self.local
        &&& required.repository ==> self.repository
        &&& required.no_lrc_control ==> self.no_lrc_control
        &&& required.active_conversation ==> self.active_conversation
        &&& required.ai_enabled ==> self.ai_enabled
    }

    /// No condition set.
    pub fn empty() -> (r: Availability)
        ensures
            !r.agent_view && !r.terminal_view && !r.local && !r.repository && !r.no_lrc_control
                && !r.active_conversation && !r.ai_enabled,
    {
        Availability {
            agent_view: false,
            terminal_view: false,
            local: false,
            repository: false,
            no_lrc_control: false,
            active_conversation: false,
            ai_enabled: false,
        }
    }

    /// Whether every condition that `required` sets is set here too.
    pub fn contains(&self, required: &Availability) -> (r: bool)
        ensures
            r == self.includes(*required),
            r <==> {
                &&& required.agent_view ==> self.agent_view
                &&& required.terminal_view ==> self.terminal_view
                &&& required.local ==> self.local
                &&& required.repository ==> self.repository
                &&& required.no_lrc_control ==> self.no_lrc_control
                &&& required.active_conversation ==> self.active_conversation
                &&& required.ai_enabled ==> self.ai_enabled
            },
    {
        (!required.agent_view || self.agent_view) && (!required.terminal_view || self.terminal_view)
            && (!required.local || self.local) && (!required.repository || self.repository) && (
        !required.no_lrc_control || self.no_lrc_control) && (!required.active_conversation
            || self.active_conversation) && (!required.ai_enabled || self.ai_enabled)
    }
}

/// What the terminal reports about its session when the offered commands are
/// recomputed.
pub struct SessionSignals {
    /// Whether the agent view feature is switched on.
    pub agent_view_feature_enabled: bool,
    /// Whether the terminal shows the agent view.
    pub is_agent_view_active: bool,
    /// Whether the active session runs on this machine.
    pub is_local_session: bool,
    /// Whether the live working directory lies in a detected repository.
    pub cwd_in_repository: bool,
    /// Whether a CLI subagent is in control of the terminal.
    pub is_agent_in_control: bool,
    /// Whether the terminal view has an active AI conversation.
    pub has_active_conversation: bool,
    /// Whether any AI feature is enabled.
    pub is_any_ai_enabled: bool,
}

/// The session context that `signals` describe. With the agent view feature
/// off, both view conditions hold, so a command that requires either view is
/// offered while its other requirements still apply. Repositories are only
/// tracked for local sessions, and the agent view always has an active
/// conversation.
pub open spec fn spec_session_context(signals: SessionSignals) -> Availability {
    Availability {
        agent_view: !signals.agent_view_feature_enabled || signals.is_agent_view_active,
        terminal_view: !signals.agent_view_feature_enabled || !signals.is_agent_view_active,
        local: signals.is_local_session,
        repository: signals.is_local_session && signals.cwd_in_repository,
        no_lrc_control: !signals.is_agent_in_control,
        active_conversation: signals.is_agent_view_active || signals.has_active_conversation,
        ai_enabled: signals.is_any_ai_enabled,
    }
}

/// The session context that `signals` describe.
pub fn session_context(signals: &SessionSignals) -> (r: Availability)
    ensures
        r == spec_session_context(*signals),
        !signals.agent_view_feature_enabled ==> r.agent_view && r.terminal_view,
        signals.agent_view_feature_enabled ==> r.agent_view == signals.is_agent_view_active
            && r.terminal_view == !signals.is_agent_view_active,
        r.local == signals.is_local_session,
        r.repository == (signals.is_local_session && signals.cwd_in_repository),
        r.no_lrc_control == !signals.is_agent_in_control,
        signals.has_active_conversation ==> r.active_conversation,
        signals.is_agent_view_active ==> r.active_conversation,
        !signals.is_agent_view_active && !signals.has_active_conversation ==> !r.active_conversation,
        r.ai_enabled == signals.is_any_ai_enabled,
{
    let mut context = Availability::empty();
    if !signals.agent_view_feature_enabled {
        context.agent_view = true;
        context.terminal_view = true;
    } else if signals.is_agent_view_active {
        context.agent_view = true;
    } else {
        context.terminal_view = true;
    }
    if signals.is_local_session {
        context.local = true;
    }
    if signals.is_local_session && signals.cwd_in_repository {
        context.repository = true;
    }
    if !signals.is_agent_in_control {
        context.no_lrc_control = true;
    }
    let has_active_conversation = if signals.is_agent_view_active {
        true
    } else {
        signals.has_active_conversation
    };
    if has_active_conversation {
        context.active_conversation = true;
    }
    if signals.is_any_ai_enabled {
        context.ai_enabled = true;
    }
    context
}

/// A built-in slash command.
pub struct StaticCommand {
    /// The identifier the command is registered under.
    pub id: u64,
    /// The name as typed, with its leading `/`.
    pub name: String,
    pub description: String,
    pub icon_path: String,
    /// The conditions under which the command is offered.
    pub availability: Availability,
}

impl StaticCommand {
    /// Whether the command is offered in the session context `context`.
    pub open spec fn spec_is_active(self, context: Availability) -> bool {
        context.includes(self.availability)
    }

    /// Whether the command is offered in the session context `context`.
    pub fn is_active(&self, context: &Availability) -> (r: bool)
        ensures
            r == self.spec_is_active(*context),
    {
        context.contains(&self.availability)
    }

    /// A copy of this command.
    pub fn duplicate(&self) -> (r: StaticCommand)
        ensures
            r == *self,
    {
        StaticCommand {
            id: self.id,
            name: self.name.clone(),
            description: self.description.clone(),
            icon_path: self.icon_path.clone(),
            availability: Availability { ..self.availability },
        }
    }
}

/// Whether a command with this name is offered while the CLI agent rich
/// input is open: only `/prompts` and `/skills` are.
pub open spec fn allowed_in_cli_agent_input(name: Seq<char>) -> bool {
    name == "/prompts"@ || name == "/skills"@
}

/// Whether `command` is offered in `context`, given whether the CLI agent
/// input is open.
pub open spec fn is_offered(
    command: StaticCommand,
    context: Availability,
    cli_agent_input_open: bool,
) -> bool {
    &&& command.spec_is_active(context)
    &&& (!cli_agent_input_open || allowed_in_cli_agent_input(command.name@))
}

/// The commands of `registry` that are offered, in registry order.
pub open spec fn offered_commands(
    registry: Seq<StaticCommand>,
    context: Availability,
    cli_agent_input_open: bool,
) -> Seq<StaticCommand> {
    registry.filter(|c: StaticCommand| is_offered(c, context, cli_agent_input_open))
}

/// Whether `a` and `b` hold the same characters.
fn str_equal(a: &str, b: &str) -> (r: bool)
    ensures
        r == (a@ == b@),
{
    let n = a.unicode_len();
    if n != b.unicode_len() {
        return false;
    }
    let mut i: usize = 0;
    while i < n
        invariant
            n == a@.len(),
            n == b@.len(),
            i <= n,
            forall|j: int| 0 <= j < i ==> a@[j] == b@[j],
        decreases n - i,
    {
        if a.get_char(i) != b.get_char(i) {
            return false;
        }
        i = i + 1;
    }
    proof {
        assert(a@ =~= b@);
    }
    true
}

/// Whether a command with this name is offered while the CLI agent rich
/// input is open.
pub fn is_allowed_in_cli_agent_input(name: &str) -> (r: bool)
    ensures
        r == allowed_in_cli_agent_input(name@),
{
    str_equal(name, "/prompts") || str_equal(name, "/skills")
}

proof fn lemma_filter_push<A>(s: Seq<A>, pred: spec_fn(A) -> bool, e: A)
    ensures
        s.push(e).filter(pred) == (if pred(e) {
            s.filter(pred).push(e)
        } else {
            s.filter(pred)
        }),
{
    reveal(Seq::filter);
    assert(s.push(e).drop_last() =~= s);
}

/// Whether no two commands of `commands` share an identifier.
pub open spec fn has_distinct_ids(commands: Seq<StaticCommand>) -> bool {
    forall|i: int, j: int|
        0 <= i < commands.len() && 0 <= j < commands.len() && i != j ==> (#[trigger] commands[i]).id
            != (#[trigger] commands[j]).id
}

/// Filtering keeps only elements of the source, and keeps identifiers
/// distinct.
proof fn lemma_filter_distinct_ids(s: Seq<StaticCommand>, pred: spec_fn(StaticCommand) -> bool)
    ensures
        forall|i: int|
            0 <= i < s.filter(pred).len() ==> exists|j: int|
                0 <= j < s.len() && #[trigger] s.filter(pred)[i] == s[j],
        has_distinct_ids(s) ==> has_distinct_ids(s.filter(pred)),
    decreases s.len(),
{
    reveal(Seq::filter);
    if s.len() > 0 {
        let t = s.drop_last();
        let e = s.last();
        lemma_filter_distinct_ids(t, pred);
        assert(s =~= t.push(e));
        lemma_filter_push(t, pred, e);
        let f = s.filter(pred);
        let tf = t.filter(pred);
        assert forall|i: int| 0 <= i < f.len() implies exists|j: int|
            0 <= j < s.len() && #[trigger] f[i] == s[j] by {
            if i < tf.len() {
                let j = choose|j: int| 0 <= j < t.len() && tf[i] == t[j];
                assert(f[i] == tf[i]);
                assert(s[j] == t[j]);
            } else {
                assert(f[i] == s[s.len() - 1]);
            }
        }
        if has_distinct_ids(s) {
            assert(has_distinct_ids(t)) by {
                assert forall|i: int, j: int|
                    0 <= i < t.len() && 0 <= j < t.len() && i != j implies (#[trigger] t[i]).id
                    != (#[trigger] t[j]).id by {
                    assert(t[i] == s[i] && t[j] == s[j]);
                }
            }
            assert forall|i: int, j: int|
                0 <= i < f.len() && 0 <= j < f.len() && i != j implies (#[trigger] f[i]).id != (
            #[trigger] f[j]).id by {
                if i < tf.len() && j < tf.len() {
                    assert(f[i] == tf[i] && f[j] == tf[j]);
                } else if i < tf.len() {
                    let k = choose|k: int| 0 <= k < t.len() && tf[i] == t[k];
                    assert(f[i] == tf[i]);
                    assert(f[j] == s[s.len() - 1]);
                    assert(s[k] == t[k]);
                } else {
                    let k = choose|k: int| 0 <= k < t.len() && tf[j] == t[k];
                    assert(f[j] == tf[j]);
                    assert(f[i] == s[s.len() - 1]);
                    assert(s[k] == t[k]);
                }
            }
        }
    }
}

/// The commands of `registry` offered in `context`, given whether the CLI
/// agent input is open.
pub fn select_offered_commands(
    registry: &Vec<StaticCommand>,
    context: &Availability,
    cli_agent_input_open: bool,
) -> (r: Vec<StaticCommand>)
    ensures
        r@ == offered_commands(registry@, *context, cli_agent_input_open),
        has_distinct_ids(registry@) ==> has_distinct_ids(r@),
        forall|i: int|
            0 <= i < r@.len() ==> {
                let required = (#[trigger] r@[i]).availability;
                &&& required.agent_view ==> context.agent_view
                &&& required.terminal_view ==> context.terminal_view
                &&& required.local ==> context.local
                &&& required.repository ==> context.repository
                &&& required.no_lrc_control ==> context.no_lrc_control
                &&& required.active_conversation ==> context.active_conversation
                &&& required.ai_enabled ==> context.ai_enabled
                &&& cli_agent_input_open ==> (r@[i].name@ == "/prompts"@ || r@[i].name@
                    == "/skills"@)
            },
{
    let ghost pred = |c: StaticCommand| is_offered(c, *context, cli_agent_input_open);
    let mut offered: Vec<StaticCommand> = Vec::new();
    let mut i: usize = 0;
    while i < registry.len()
        invariant
            i <= registry@.len(),
            pred == (|c: StaticCommand| is_offered(c, *context, cli_agent_input_open)),
            offered@ == registry@.take(i as int).filter(pred),
        decreases registry@.len() - i,
    {
        let command = &registry[i];
        proof {
            assert(registry@.take(i + 1) =~= registry@.take(i as int).push(registry@[i as int]));
            lemma_filter_push(registry@.take(i as int), pred, registry@[i as int]);
        }
        if command.is_active(context) && (!cli_agent_input_open || is_allowed_in_cli_agent_input(
            command.name.as_str(),
        )) {
            offered.push(command.duplicate());
        }
        i = i + 1;
    }
    proof {
        assert(registry@.take(i as int) =~= registry@);
        lemma_filter_distinct_ids(registry@, pred);
        assert forall|k: int| 0 <= k < offered@.len() implies is_offered(
            #[trigger] offered@[k],
            *context,
            cli_agent_input_open,
        ) by {
            registry@.lemma_filter_pred(pred, k);
        }
    }
    offered
}

/// Every command that is offered is available in the session context, and
/// while the CLI agent input is open every offered command is `/prompts` or
/// `/skills`.
pub proof fn lemma_offered_commands_are_allowed(
    registry: Seq<StaticCommand>,
    context: Availability,
    cli_agent_input_open: bool,
    i: int,
)
    requires
        0 <= i < offered_commands(registry, context, cli_agent_input_open).len(),
    ensures
        offered_commands(registry, context, cli_agent_input_open)[i].spec_is_active(context),
        cli_agent_input_open ==> allowed_in_cli_agent_input(
            offered_commands(registry, context, cli_agent_input_open)[i].name@,
        ),
{
    let pred = |c: StaticCommand| is_offered(c, context, cli_agent_input_open);
    registry.lemma_filter_pred(pred, i);
}

/// Every command of the registry that is available in the session context
/// and, while the CLI agent input is open, allowed there, is offered.
pub proof fn lemma_available_commands_are_offered(
    registry: Seq<StaticCommand>,
    context: Availability,
    cli_agent_input_open: bool,
    i: int,
)
    requires
        0 <= i < registry.len(),
        registry[i].spec_is_active(context),
        cli_agent_input_open ==> allowed_in_cli_agent_input(registry[i].name@),
    ensures
        offered_commands(registry, context, cli_agent_input_open).contains(registry[i]),
{
    let pred = |c: StaticCommand| is_offered(c, context, cli_agent_input_open);
    registry.lemma_filter_contains(pred, i);
}

/// A command is offered only when the session context has every condition
/// the command requires, and, while the CLI agent input is open, only when it
/// is `/prompts` or `/skills`.
pub proof fn lemma_offered_commands_meet_every_requirement(
    registry: Seq<StaticCommand>,
    context: Availability,
    cli_agent_input_open: bool,
    i: int,
)
    requires
        0 <= i < offered_commands(registry, context, cli_agent_input_open).len(),
    ensures
        ({
            let c = offered_commands(registry, context, cli_agent_input_open)[i];
            &&& c.availability.agent_view ==> context.agent_view
            &&& c.availability.terminal_view ==> context.terminal_view
            &&& c.availability.local ==> context.local
            &&& c.availability.repository ==> context.repository
            &&& c.availability.no_lrc_control ==> context.no_lrc_control
            &&& c.availability.active_conversation ==> context.active_conversation
            &&& c.availability.ai_enabled ==> context.ai_enabled
            &&& cli_agent_input_open ==> (c.name@ == "/prompts"@ || c.name@ == "/skills"@)
        }),
{
    let pred = |c: StaticCommand| is_offered(c, context, cli_agent_input_open);
    registry.lemma_filter_pred(pred, i);
}

/// A command that requires a condition the session context lacks is not
/// offered; in particular an AI-gated command is not offered while AI is
/// off.
pub proof fn lemma_unmet_requirement_is_not_offered(
    registry: Seq<StaticCommand>,
    context: Availability,
    cli_agent_input_open: bool,
    command: StaticCommand,
)
    requires
        ({
            ||| command.availability.agent_view && !context.agent_view
            ||| command.availability.terminal_view && !context.terminal_view
            ||| command.availability.local && !context.local
            ||| command.availability.repository && !context.repository
            ||| command.availability.no_lrc_control && !context.no_lrc_control
            ||| command.availability.active_conversation && !context.active_conversation
            ||| command.availability.ai_enabled && !context.ai_enabled
        }),
    ensures
        !offered_commands(registry, context, cli_agent_input_open).contains(command),
{
    let offered = offered_commands(registry, context, cli_agent_input_open);
    if offered.contains(command) {
        let i = choose|i: int| 0 <= i < offered.len() && offered[i] == command;
        lemma_offered_commands_meet_every_requirement(registry, context, cli_agent_input_open, i);
    }
}

/// Every registry command whose every requirement the session context has,
/// and that is `/prompts` or `/skills` while the CLI agent input is open, is
/// offered.
pub proof fn lemma_met_requirements_are_offered(
    registry: Seq<StaticCommand>,
    context: Availability,
    cli_agent_input_open: bool,
    i: int,
)
    requires
        0 <= i < registry.len(),
        registry[i].availability.agent_view ==> context.agent_view,
        registry[i].availability.terminal_view ==> context.terminal_view,
        registry[i].availability.local ==> context.local,
        registry[i].availability.repository ==> context.repository,
        registry[i].availability.no_lrc_control ==> context.no_lrc_control,
        registry[i].availability.active_conversation ==> context.active_conversation,
        registry[i].availability.ai_enabled ==> context.ai_enabled,
        cli_agent_input_open ==> (registry[i].name@ == "/prompts"@ || registry[i].name@
            == "/skills"@),
    ensures
        offered_commands(registry, context, cli_agent_input_open).contains(registry[i]),
{
    let pred = |c: StaticCommand| is_offered(c, context, cli_agent_input_open);
    registry.lemma_filter_contains(pred, i);
}

/// The session context has the view conditions of the view shown (both when
/// the agent view feature is off), the local and repository conditions of a
/// local session in a repository, no-LRC-control while no subagent is in
/// control, an active conversation in the agent view or whenever the
/// terminal view has one, and AI enabled exactly when it is.
pub proof fn lemma_session_context_follows_the_signals(signals: SessionSignals)
    ensures
        ({
            let c = spec_session_context(signals);
            &&& !signals.agent_view_feature_enabled ==> c.agent_view && c.terminal_view
            &&& signals.agent_view_feature_enabled ==> c.agent_view == signals.is_agent_view_active
                && c.terminal_view == !signals.is_agent_view_active
            &&& c.local == signals.is_local_session
            &&& c.repository == (signals.is_local_session && signals.cwd_in_repository)
            &&& c.no_lrc_control == !signals.is_agent_in_control
            &&& signals.has_active_conversation ==> c.active_conversation
            &&& signals.is_agent_view_active ==> c.active_conversation
            &&& !signals.is_agent_view_active && !signals.has_active_conversation
                ==> !c.active_conversation
            &&& c.ai_enabled == signals.is_any_ai_enabled
        }),
{
}

/// The view of an optional string.
pub open spec fn opt_string_view(s: Option<String>) -> Option<Seq<char>> {
    match s {
        Some(s) => Some(s@),
        None => None,
    }
}

/// The event that announces a change of the offered commands.
pub struct UpdatedActiveCommands;

/// Whether `path` is written in one way only: components separated by
/// single `/`s, no `\\` or `:` (so no prefix on any target), no `.`
/// component and no trailing `/`. Two such paths have the same components
/// exactly when they are the same text.
pub open spec fn is_clean_path(path: Seq<char>) -> bool {
    &&& !path.contains('\\')
    &&& !path.contains(':')
    &&& forall|i: int| 0 <= i < path.len() - 1 ==> !(path[i] == '/' && #[trigger] path[i + 1] == '/')
    &&& path.len() > 0 ==> path.last() != '/'
    &&& forall|i: int|
        0 <= i < path.len() && #[trigger] path[i] == '.' ==> !((i == 0 || path[i - 1] == '/') && (
        i + 1 == path.len() || path[i + 1] == '/'))
}

/// Calls `Path::eq` on the paths `a` and `b`, which compares them by their
/// components (so `/repo` and `/repo/` are the same path). How a path splits
/// into components depends on the target, so the result gets no name; the
/// contract states that a path equals itself, and that two paths written in
/// one way only are equal exactly when their texts are.
#[verifier::external_body]
fn same_path(a: &str, b: &str) -> (r: bool)
    ensures
        a@ == b@ ==> r,
        is_clean_path(a@) && is_clean_path(b@) ==> (r <==> a@ == b@),
{
    std::path::Path::new(a) == std::path::Path::new(b)
}

/// The slash commands a terminal offers, the repository root it was last
/// told about, and the terminal it belongs to.
pub struct SlashCommandState {
    active_commands: Vec<StaticCommand>,
    active_repo_root: Option<String>,
    terminal_view_id: usize,
}

impl SlashCommandState {
    /// The commands offered, as of the last recompute.
    pub closed spec fn spec_active_commands(&self) -> Seq<StaticCommand> {
        self.active_commands@
    }

    /// The repository root last set.
    pub closed spec fn spec_active_repo_root(&self) -> Option<Seq<char>> {
        opt_string_view(self.active_repo_root)
    }

    /// The terminal the commands are offered in.
    pub closed spec fn spec_terminal_view_id(&self) -> usize {
        self.terminal_view_id
    }

    /// The state of a new terminal `terminal_view_id`: no repository root,
    /// and the commands offered in its session. Returns the event that
    /// announces the offered commands when there are any.
    pub fn new(
        terminal_view_id: usize,
        registry: &Vec<StaticCommand>,
        signals: &SessionSignals,
        cli_agent_input_open: bool,
    ) -> (r: (SlashCommandState, Option<UpdatedActiveCommands>))
        ensures
            r.0.spec_active_commands() == offered_commands(
                registry@,
                spec_session_context(*signals),
                cli_agent_input_open,
            ),
            r.0.spec_active_repo_root() is None,
            r.0.spec_terminal_view_id() == terminal_view_id,
            r.1 is Some <==> r.0.spec_active_commands().len() != 0,
    {
        let mut state = SlashCommandState {
            active_commands: Vec::new(),
            active_repo_root: None,
            terminal_view_id,
        };
        let announce = state.recompute_active_commands(registry, signals, cli_agent_input_open);
        (state, announce)
    }

    /// Recomputes the offered commands from the session. Returns the event
    /// that announces the change when the number of offered commands changed.
    pub fn recompute_active_commands(
        &mut self,
        registry: &Vec<StaticCommand>,
        signals: &SessionSignals,
        cli_agent_input_open: bool,
    ) -> (announce: Option<UpdatedActiveCommands>)
        ensures
            final(self).spec_active_commands() == offered_commands(
                registry@,
                spec_session_context(*signals),
                cli_agent_input_open,
            ),
            final(self).spec_active_repo_root() == old(self).spec_active_repo_root(),
            final(self).spec_terminal_view_id() == old(self).spec_terminal_view_id(),
            announce is Some <==> final(self).spec_active_commands().len() != old(
                self,
            ).spec_active_commands().len(),
            has_distinct_ids(registry@) ==> has_distinct_ids(final(self).spec_active_commands()),
    {
        let context = session_context(signals);
        let old_count = self.active_commands.len();
        self.active_commands = select_offered_commands(registry, &context, cli_agent_input_open);
        if self.active_commands.len() != old_count {
            Some(UpdatedActiveCommands)
        } else {
            None
        }
    }

    /// Handles an event from one of the models the commands depend on: the
    /// commands are recomputed when the event is one that triggers it for
    /// this terminal, and stay as they are otherwise. Returns the event that
    /// announces a change of the offered commands, if any.
    pub fn handle_event(
        &mut self,
        event: &DataSourceEvent,
        registry: &Vec<StaticCommand>,
        signals: &SessionSignals,
        cli_agent_input_open: bool,
    ) -> (announce: Option<UpdatedActiveCommands>)
        ensures
            spec_triggers_recompute(*event, old(self).spec_terminal_view_id()) ==> {
                &&& final(self).spec_active_commands() == offered_commands(
                    registry@,
                    spec_session_context(*signals),
                    cli_agent_input_open,
                )
                &&& final(self).spec_active_repo_root() == old(self).spec_active_repo_root()
                &&& final(self).spec_terminal_view_id() == old(self).spec_terminal_view_id()
                &&& (announce is Some <==> final(self).spec_active_commands().len() != old(
                    self,
                ).spec_active_commands().len())
            },
            !spec_triggers_recompute(*event, old(self).spec_terminal_view_id()) ==> {
                &&& *final(self) == *old(self)
                &&& announce is None
            },
    {
        if triggers_recompute(event, self.terminal_view_id) {
            self.recompute_active_commands(registry, signals, cli_agent_input_open)
        } else {
            None
        }
    }

    /// Records the repository root of the terminal given whether `same_root`
    /// names the root already recorded, and recomputes the offered commands
    /// when it is a new root. Returns the event that announces a change of
    /// the offered commands, if any.
    pub fn update_active_repo_root(
        &mut self,
        repo_root: Option<String>,
        same_root: bool,
        registry: &Vec<StaticCommand>,
        signals: &SessionSignals,
        cli_agent_input_open: bool,
    ) -> (announce: Option<UpdatedActiveCommands>)
        ensures
            same_root ==> {
                &&& *final(self) == *old(self)
                &&& announce is None
            },
            !same_root ==> {
                &&& final(self).spec_active_repo_root() == opt_string_view(repo_root)
                &&& final(self).spec_active_commands() == offered_commands(
                    registry@,
                    spec_session_context(*signals),
                    cli_agent_input_open,
                )
                &&& final(self).spec_terminal_view_id() == old(self).spec_terminal_view_id()
                &&& (announce is Some <==> final(self).spec_active_commands().len() != old(
                    self,
                ).spec_active_commands().len())
            },
    {
        if same_root {
            return None;
        }
        self.active_repo_root = repo_root;
        self.recompute_active_commands(registry, signals, cli_agent_input_open)
    }

    /// Records the repository root of the terminal, and recomputes the
    /// offered commands when it changed. Roots are compared as paths, by
    /// their components. Returns the event that announces a change of the
    /// offered commands, if any.
    pub fn set_active_repo_root(
        &mut self,
        repo_root: Option<String>,
        registry: &Vec<StaticCommand>,
        signals: &SessionSignals,
        cli_agent_input_open: bool,
    ) -> (announce: Option<UpdatedActiveCommands>)
        ensures
            old(self).spec_active_repo_root() == opt_string_view(repo_root) ==> {
                &&& *final(self) == *old(self)
                &&& announce is None
            },
            (*final(self) == *old(self) && announce is None) || {
                &&& final(self).spec_active_repo_root() == opt_string_view(repo_root)
                &&& final(self).spec_active_commands() == offered_commands(
                    registry@,
                    spec_session_context(*signals),
                    cli_agent_input_open,
                )
                &&& final(self).spec_terminal_view_id() == old(self).spec_terminal_view_id()
                &&& (announce is Some <==> final(self).spec_active_commands().len() != old(
                    self,
                ).spec_active_commands().len())
            },
            ({
                ||| old(self).spec_active_repo_root() is None != repo_root is None
                ||| old(self).spec_active_repo_root() matches Some(current) && opt_string_view(
                    repo_root,
                ) matches Some(next) && is_clean_path(current) && is_clean_path(next) && current
                    != next
            }) ==> {
                &&& final(self).spec_active_repo_root() == opt_string_view(repo_root)
                &&& final(self).spec_active_commands() == offered_commands(
                    registry@,
                    spec_session_context(*signals),
                    cli_agent_input_open,
                )
                &&& (announce is Some <==> final(self).spec_active_commands().len() != old(
                    self,
                ).spec_active_commands().len())
            },
    {
        let same_root = match (&self.active_repo_root, &repo_root) {
            (None, None) => true,
            (Some(current), Some(new_root)) => same_path(current.as_str(), new_root.as_str()),
            _ => false,
        };
        self.update_active_repo_root(repo_root, same_root, registry, signals, cli_agent_input_open)
    }

    /// The commands offered, as of the last recompute.
    pub fn active_commands(&self) -> (r: &Vec<StaticCommand>)
        ensures
            r@ == self.spec_active_commands(),
    {
        &self.active_commands
    }

    /// Whether a command named `name` is offered, as of the last recompute.
    pub fn command_is_active(&self, name: &str) -> (r: bool)
        ensures
            r == exists|i: int|
                0 <= i < self.spec_active_commands().len() && (
                #[trigger] self.spec_active_commands()[i]).name@ == name@,
    {
        let mut i: usize = 0;
        while i < self.active_commands.len()
            invariant
                i <= self.active_commands@.len(),
                forall|j: int| 0 <= j < i ==> (#[trigger] self.active_commands@[j]).name@ != name@,
            decreases self.active_commands@.len() - i,
        {
            if str_equal(self.active_commands[i].name.as_str(), name) {
                proof {
                    assert(self.spec_active_commands()[i as int].name@ == name@);
                }
                return true;
            }
            i = i + 1;
        }
        false
    }
}

/// An event from one of the models the slash command list follows.
pub enum DataSourceEvent {
    /// The active session's working directory changed.
    ActiveSessionUpdatedPwd,
    /// The active session finished bootstrapping.
    ActiveSessionBootstrapped,
    /// A CLI subagent was spawned.
    SubagentSpawned,
    /// A CLI subagent finished.
    SubagentFinished,
    /// Control of the terminal passed to or from a CLI subagent.
    SubagentUpdatedControl,
    /// Any other event of the CLI subagent controller.
    SubagentOther,
    /// The terminal entered the agent view.
    EnteredAgentView,
    /// The terminal left the agent view.
    ExitedAgentView,
    /// Any other event of the agent view controller.
    AgentViewOther,
    /// Whether any AI feature is enabled changed.
    AnyAIEnabledChanged,
    /// Any other change of the AI settings.
    AISettingsOther,
    /// Whether slash commands are enabled in the terminal changed.
    SlashCommandsInTerminalChanged,
    /// Any other change of the input settings.
    InputSettingsOther,
    /// The CLI agent input session of the terminal `terminal_view_id` changed.
    CLIInputSessionChanged { terminal_view_id: usize },
    /// Any other event of the CLI agent sessions model.
    CLISessionsOther,
}

/// Whether `event` makes the terminal `terminal_view_id` recompute the
/// commands it offers.
pub open spec fn spec_triggers_recompute(event: DataSourceEvent, terminal_view_id: usize) -> bool {
    match event {
        DataSourceEvent::ActiveSessionUpdatedPwd => true,
        DataSourceEvent::ActiveSessionBootstrapped => true,
        DataSourceEvent::SubagentSpawned => true,
        DataSourceEvent::SubagentFinished => true,
        DataSourceEvent::SubagentUpdatedControl => true,
        DataSourceEvent::EnteredAgentView => true,
        DataSourceEvent::ExitedAgentView => true,
        DataSourceEvent::AnyAIEnabledChanged => true,
        DataSourceEvent::SlashCommandsInTerminalChanged => true,
        DataSourceEvent::CLIInputSessionChanged { terminal_view_id: id } => id == terminal_view_id,
        _ => false,
    }
}

/// Whatever the terminal, a change of working directory, a finished
/// bootstrap, a subagent spawning, finishing or taking or giving up control,
/// entering or leaving the agent view, and a change of whether AI or slash
/// commands are enabled each make it recompute its commands; a change of a
/// CLI agent input session does so exactly for its own terminal; any other
/// event does not.
pub proof fn lemma_recompute_triggers(event: DataSourceEvent, terminal_view_id: usize)
    ensures
        ({
            ||| event is ActiveSessionUpdatedPwd
            ||| event is ActiveSessionBootstrapped
            ||| event is SubagentSpawned
            ||| event is SubagentFinished
            ||| event is SubagentUpdatedControl
            ||| event is EnteredAgentView
            ||| event is ExitedAgentView
            ||| event is AnyAIEnabledChanged
            ||| event is SlashCommandsInTerminalChanged
        }) ==> spec_triggers_recompute(event, terminal_view_id),
        event matches DataSourceEvent::CLIInputSessionChanged { terminal_view_id: id } ==> (
        spec_triggers_recompute(event, terminal_view_id) <==> id == terminal_view_id),
        ({
            ||| event is SubagentOther
            ||| event is AgentViewOther
            ||| event is AISettingsOther
            ||| event is InputSettingsOther
            ||| event is CLISessionsOther
        }) ==> !spec_triggers_recompute(event, terminal_view_id),
{
}

/// Whether `event` makes the terminal `terminal_view_id` recompute the
/// commands it offers: working-directory and bootstrap events, subagent
/// spawn, finish and control changes, entering or leaving the agent view, a
/// change of whether AI is enabled or slash commands are enabled in the
/// terminal, and a change of this terminal's CLI agent input.
pub fn triggers_recompute(event: &DataSourceEvent, terminal_view_id: usize) -> (r: bool)
    ensures
        r == spec_triggers_recompute(*event, terminal_view_id),
        ({
            ||| *event is ActiveSessionUpdatedPwd
            ||| *event is ActiveSessionBootstrapped
            ||| *event is SubagentSpawned
            ||| *event is SubagentFinished
            ||| *event is SubagentUpdatedControl
            ||| *event is EnteredAgentView
            ||| *event is ExitedAgentView
            ||| *event is AnyAIEnabledChanged
            ||| *event is SlashCommandsInTerminalChanged
        }) ==> r,
        *event matches DataSourceEvent::CLIInputSessionChanged { terminal_view_id: id } ==> (r
            <==> id == terminal_view_id),
        ({
            ||| *event is SubagentOther
            ||| *event is AgentViewOther
            ||| *event is AISettingsOther
            ||| *event is InputSettingsOther
            ||| *event is CLISessionsOther
        }) ==> !r,
{
    match event {
        DataSourceEvent::ActiveSessionUpdatedPwd | DataSourceEvent::ActiveSessionBootstrapped => true,
        DataSourceEvent::SubagentSpawned | DataSourceEvent::SubagentFinished
        | DataSourceEvent::SubagentUpdatedControl => true,
        DataSourceEvent::EnteredAgentView | DataSourceEvent::ExitedAgentView => true,
        DataSourceEvent::AnyAIEnabledChanged => true,
        DataSourceEvent::SlashCommandsInTerminalChanged => true,
        DataSourceEvent::CLIInputSessionChanged { terminal_view_id: id } => *id == terminal_view_id,
        _ => false,
    }
}

/// The path looked up among the detected repositories for the working
/// directory `cwd`: none without a working directory; otherwise the
/// OS-native form of `cwd` when the shell's launch data converts it, else
/// `cwd` as it is.
pub open spec fn spec_repository_lookup_path(
    cwd: Option<Seq<char>>,
    converted: Option<Seq<char>>,
) -> Option<Seq<char>> {
    match cwd {
        None => None,
        Some(c) => match converted {
            Some(p) => Some(p),
            None => Some(c),
        },
    }
}

/// The path to look up among the detected repositories for the working
/// directory `cwd`, given its OS-native conversion `converted` if any.
pub fn repository_lookup_path(cwd: Option<&str>, converted: Option<String>) -> (r: Option<String>)
    ensures
        opt_string_view(r) == spec_repository_lookup_path(
            match cwd {
                Some(c) => Some(c@),
                None => None,
            },
            opt_string_view(converted),
        ),
{
    match cwd {
        None => None,
        Some(c) => match converted {
            Some(p) => Some(p),
            None => Some(c.to_owned()),
        },
    }
}

/// The text that `str::to_lowercase` makes of `s`.
pub uninterp spec fn unicode_lowercase(s: Seq<char>) -> Seq<char>;

/// Calls `str::to_lowercase`: `s` with every character mapped to its Unicode
/// lower case. The contract names the result; the case mapping is left
/// unsaid.
#[verifier::external_body]
fn to_lowercase(s: &str) -> (r: String)
    ensures
        r@ == unicode_lowercase(s@),
{
    s.to_lowercase()
}

/// `name` without one leading `/`.
pub open spec fn strip_leading_slash(name: Seq<char>) -> Seq<char> {
    if name.len() > 0 && name[0] == '/' {
        name.drop_first()
    } else {
        name
    }
}

/// When `query` is a prefix of the lower-cased `name_lower` without its
/// leading `/`, the byte lengths of the query and of that name; otherwise
/// `None`. Their ratio is the share of the name that the query covers.
pub open spec fn spec_prefix_coverage(query: Seq<char>, name_lower: Seq<char>) -> Option<
    (usize, usize),
> {
    let stripped = strip_leading_slash(name_lower);
    if query.is_prefix_of(stripped) {
        Some((encode_utf8(query).len() as usize, encode_utf8(stripped).len() as usize))
    } else {
        None
    }
}

proof fn lemma_encode_append(a: Seq<char>, b: Seq<char>)
    ensures
        encode_utf8(a + b) == encode_utf8(a) + encode_utf8(b),
    decreases a.len(),
{
    if a.len() == 0 {
        assert(a + b =~= b);
        assert(encode_utf8(a) =~= Seq::<u8>::empty());
        assert(encode_utf8(a) + encode_utf8(b) =~= encode_utf8(b));
    } else {
        assert((a + b)[0] == a[0]);
        assert((a + b).drop_first() =~= a.drop_first() + b);
        lemma_encode_append(a.drop_first(), b);
        assert(encode_scalar(a[0] as u32) + (encode_utf8(a.drop_first()) + encode_utf8(b))
            =~= encode_scalar(a[0] as u32) + encode_utf8(a.drop_first()) + encode_utf8(b));
    }
}

/// A prefix of a text takes no more bytes than the text.
proof fn lemma_prefix_encodes_shorter(query: Seq<char>, name: Seq<char>)
    requires
        query.is_prefix_of(name),
    ensures
        encode_utf8(query).len() <= encode_utf8(name).len(),
{
    assert(name =~= query + name.skip(query.len() as int));
    lemma_encode_append(query, name.skip(query.len() as int));
}

/// A query covers a command name only as a prefix of the lower-cased name
/// without its leading `/`: the query then takes no more bytes than that
/// name, and a query with more characters than the name covers nothing.
pub proof fn lemma_prefix_coverage_is_a_prefix(query: Seq<char>, name_lower: Seq<char>)
    ensures
        spec_prefix_coverage(query, name_lower) is Some ==> query.is_prefix_of(
            strip_leading_slash(name_lower),
        ) && encode_utf8(query).len() <= encode_utf8(strip_leading_slash(name_lower)).len(),
        query.len() > strip_leading_slash(name_lower).len() ==> spec_prefix_coverage(
            query,
            name_lower,
        ) is None,
{
    if query.is_prefix_of(strip_leading_slash(name_lower)) {
        lemma_prefix_encodes_shorter(query, strip_leading_slash(name_lower));
    }
}

/// The byte lengths of `query` and of `name_lower` without its leading `/`,
/// when the query is a prefix of that name.
pub fn prefix_coverage_of_lowered(query: &str, name_lower: &str) -> (r: Option<(usize, usize)>)
    ensures
        r == spec_prefix_coverage(query@, name_lower@),
        r matches Some((q, n)) ==> q <= n && query@.is_prefix_of(strip_leading_slash(name_lower@)),
        !query@.is_prefix_of(strip_leading_slash(name_lower@)) ==> r is None,
        query@.len() > strip_leading_slash(name_lower@).len() ==> r is None,
{
    let total = name_lower.unicode_len();
    let starts_with_slash = total > 0 && name_lower.get_char(0) == '/';
    let stripped = if starts_with_slash {
        name_lower.substring_char(1, total)
    } else {
        name_lower.substring_char(0, total)
    };
    proof {
        if starts_with_slash {
            assert(stripped@ =~= name_lower@.drop_first());
        } else {
            assert(stripped@ =~= name_lower@);
        }
        assert(stripped@ == strip_leading_slash(name_lower@));
    }
    let qn = query.unicode_len();
    let sn = stripped.unicode_len();
    if qn > sn {
        proof {
            assert(!query@.is_prefix_of(stripped@));
        }
        return None;
    }
    let mut i: usize = 0;
    while i < qn
        invariant
            qn == query@.len(),
            sn == stripped@.len(),
            stripped@ == strip_leading_slash(name_lower@),
            qn <= sn,
            i <= qn,
            forall|j: int| 0 <= j < i ==> query@[j] == stripped@[j],
        decreases qn - i,
    {
        if query.get_char(i) != stripped.get_char(i) {
            proof {
                assert(query@[i as int] != stripped@.subrange(0, qn as int)[i as int]);
                assert(!query@.is_prefix_of(stripped@));
            }
            return None;
        }
        i = i + 1;
    }
    proof {
        assert(query@ =~= stripped@.subrange(0, qn as int));
        assert(query@.is_prefix_of(stripped@));
        lemma_prefix_encodes_shorter(query@, stripped@);
    }
    let query_bytes = query.as_bytes().len();
    let name_bytes = stripped.as_bytes().len();
    Some((query_bytes, name_bytes))
}

/// How much of the command `name` the query covers when the query is a
/// prefix of the lower-cased name without its leading `/`: the byte lengths
/// of the query and of that name.
pub fn prefix_match_coverage(query: &str, name: &str) -> (r: Option<(usize, usize)>)
    ensures
        r == spec_prefix_coverage(query@, unicode_lowercase(name@)),
        r matches Some((q, n)) ==> q <= n && query@.is_prefix_of(
            strip_leading_slash(unicode_lowercase(name@)),
        ),
        !query@.is_prefix_of(strip_leading_slash(unicode_lowercase(name@))) ==> r is None,
        query@.len() > strip_leading_slash(unicode_lowercase(name@)).len() ==> r is None,
{
    let lowered = to_lowercase(name);
    prefix_coverage_of_lowered(query, lowered.as_str())
}

/// Whether `c` is white space in the sense of `char::is_whitespace`: it has
/// the Unicode `White_Space` property.
pub open spec fn is_white_space(c: char) -> bool {
    ||| ('\t' <= c && c <= '\r') || c == ' ' || c == '\u{85}' || c == '\u{A0}'
    ||| c == '\u{1680}' || ('\u{2000}' <= c && c <= '\u{200A}')
    ||| c == '\u{2028}' || c == '\u{2029}' || c == '\u{202F}' || c == '\u{205F}'
    ||| c == '\u{3000}'
}

/// The index of the first character of `s` at or after `i` that is not white
/// space, or the length of `s`.
pub open spec fn first_non_white_space(s: Seq<char>, i: int) -> int
    decreases s.len() - i,
{
    if 0 <= i < s.len() && is_white_space(s[i]) {
        first_non_white_space(s, i + 1)
    } else {
        i
    }
}

/// The end of `s` up to `end` with trailing white space after `start`
/// removed.
pub open spec fn end_of_non_white_space(s: Seq<char>, start: int, end: int) -> int
    decreases end - start,
{
    if start < end && is_white_space(s[end - 1]) {
        end_of_non_white_space(s, start, end - 1)
    } else {
        end
    }
}

/// `s` without leading and trailing white space, as `str::trim` gives it.
pub open spec fn trimmed(s: Seq<char>) -> Seq<char> {
    let start = first_non_white_space(s, 0);
    s.subrange(start, end_of_non_white_space(s, start, s.len() as int))
}

fn is_white_space_char(c: char) -> (r: bool)
    ensures
        r == is_white_space(c),
{
    ('\t' <= c && c <= '\r') || c == ' ' || c == '\u{85}' || c == '\u{A0}' || c == '\u{1680}'
        || ('\u{2000}' <= c && c <= '\u{200A}') || c == '\u{2028}' || c == '\u{2029}'
        || c == '\u{202F}' || c == '\u{205F}' || c == '\u{3000}'
}

/// `s` without leading and trailing white space.
pub fn trim(s: &str) -> (r: &str)
    ensures
        r@ == trimmed(s@),
{
    let n = s.unicode_len();
    let mut start: usize = 0;
    while start < n && is_white_space_char(s.get_char(start))
        invariant
            n == s@.len(),
            start <= n,
            first_non_white_space(s@, 0) == first_non_white_space(s@, start as int),
        decreases n - start,
    {
        start = start + 1;
    }
    let mut end: usize = n;
    while start < end && is_white_space_char(s.get_char(end - 1))
        invariant
            n == s@.len(),
            start <= end <= n,
            start == first_non_white_space(s@, 0),
            end_of_non_white_space(s@, start as int, n as int) == end_of_non_white_space(
                s@,
                start as int,
                end as int,
            ),
        decreases end - start,
    {
        end = end - 1;
    }
    s.substring_char(start, end)
}

/// The query text that commands are matched against: none for an empty
/// query, otherwise the typed text trimmed and in lower case.
pub fn query_text(text: &str) -> (r: Option<String>)
    ensures
        text@.len() == 0 ==> r is None,
        text@.len() > 0 ==> opt_string_view(r) == Some(unicode_lowercase(trimmed(text@))),
{
    if text.is_empty() {
        return None;
    }
    Some(to_lowercase(trim(text)))
}

/// The agent whose folder a skill was found in.
pub enum SkillProvider {
    Zap,
    Claude,
    Codex,
    Gemini,
    Droid,
    OpenCode,
    /// A provider with no logo of its own.
    Other,
}

/// The icon shown beside a menu item.
#[derive(Clone, Copy)]
pub enum MenuIcon {
    Zap,
    ClaudeLogo,
    OpenAILogo,
    GeminiLogo,
    DroidLogo,
    OpenCodeLogo,
}

/// The icon of a skill: its override when it has one, otherwise the logo of
/// its provider, and the Zap icon for a provider without a logo.
pub open spec fn spec_skill_icon(icon_override: Option<MenuIcon>, provider: SkillProvider) -> MenuIcon {
    match icon_override {
        Some(icon) => icon,
        None => match provider {
            SkillProvider::Zap => MenuIcon::Zap,
            SkillProvider::Claude => MenuIcon::ClaudeLogo,
            SkillProvider::Codex => MenuIcon::OpenAILogo,
            SkillProvider::Gemini => MenuIcon::GeminiLogo,
            SkillProvider::Droid => MenuIcon::DroidLogo,
            SkillProvider::OpenCode => MenuIcon::OpenCodeLogo,
            SkillProvider::Other => MenuIcon::Zap,
        },
    }
}

/// The icon of a skill's menu item.
pub fn skill_icon(icon_override: Option<MenuIcon>, provider: &SkillProvider) -> (r: MenuIcon)
    ensures
        r == spec_skill_icon(icon_override, *provider),
{
    match icon_override {
        Some(icon) => icon,
        None => match provider {
            SkillProvider::Zap => MenuIcon::Zap,
            SkillProvider::Claude => MenuIcon::ClaudeLogo,
            SkillProvider::Codex => MenuIcon::OpenAILogo,
            SkillProvider::Gemini => MenuIcon::GeminiLogo,
            SkillProvider::Droid => MenuIcon::DroidLogo,
            SkillProvider::OpenCode => MenuIcon::OpenCodeLogo,
            SkillProvider::Other => MenuIcon::Zap,
        },
    }
}

/// Whether skills are searched for a query: only when skill listing is
/// switched on and some AI feature is enabled, since the agent is what runs
/// a skill.
pub fn skills_searched(list_skills_enabled: bool, is_any_ai_enabled: bool) -> (r: bool)
    ensures
        r == (list_skills_enabled && is_any_ai_enabled),
{
    list_skills_enabled && is_any_ai_enabled
}

/// Whether a skill is listed: while the CLI agent input is open, only a skill
/// that exists in the folder of a provider the CLI agent supports is.
pub fn skill_shown(cli_agent_input_open: bool, exists_for_supported_provider: bool) -> (r: bool)
    ensures
        r == (!cli_agent_input_open || exists_for_supported_provider),
{
    !cli_agent_input_open || exists_for_supported_provider
}

/// The name under which a skill is listed in the menu: its name after a `/`.
pub fn skill_item_name(skill_name: &str) -> (r: String)
    ensures
        r@ == seq!['/'] + skill_name@,
{
    let mut name = String::new();
    push_char(&mut name, '/');
    name.append(skill_name);
    name
}

/// How the fuzzy matcher matched a query against a text: its score and the
/// positions of the matched characters.
pub struct FuzzyMatchResult {
    pub score: i64,
    pub matched_indices: Vec<usize>,
}

/// What accepting a menu item does.
pub enum AcceptSlashCommandOrSavedPrompt {
    /// Run the built-in command `id`.
    SlashCommand { id: u64 },
    /// Invoke the skill found at `reference` under `name`.
    Skill { reference: String, name: String },
}

/// The icon of a menu item: an image path, or one of the built-in icons.
pub enum ItemIcon {
    Path(String),
    Icon(MenuIcon),
}

/// A skill that an agent can run, as the skill list reports it.
pub struct SkillDescriptor {
    /// Where the skill is defined.
    pub reference: String,
    pub name: String,
    pub description: String,
    /// The agent whose folder the skill was found in.
    pub provider: SkillProvider,
    /// An icon that replaces the provider's logo.
    pub icon_override: Option<MenuIcon>,
}

/// An entry of the slash command menu, without its rank.
pub struct InlineItem {
    pub action: AcceptSlashCommandOrSavedPrompt,
    pub icon: ItemIcon,
    pub name: String,
    pub description: Option<String>,
    pub name_match_result: Option<FuzzyMatchResult>,
    pub description_match_result: Option<FuzzyMatchResult>,
}

impl InlineItem {
    /// The menu entry of the built-in command `command`: it runs the
    /// command, shows its icon, name and description, and carries no match
    /// yet.
    pub fn from_slash_command(command: &StaticCommand) -> (r: InlineItem)
        ensures
            r.action == (AcceptSlashCommandOrSavedPrompt::SlashCommand { id: command.id }),
            r.icon == ItemIcon::Path(command.icon_path),
            r.name == command.name,
            r.description == Some(command.description),
            r.name_match_result is None,
            r.description_match_result is None,
    {
        InlineItem {
            action: AcceptSlashCommandOrSavedPrompt::SlashCommand { id: command.id },
            icon: ItemIcon::Path(command.icon_path.clone()),
            name: command.name.clone(),
            description: Some(command.description.clone()),
            name_match_result: None,
            description_match_result: None,
        }
    }

    /// The menu entry of the skill `skill`: it invokes the skill, shows the
    /// skill's icon, its name after a `/` and its description, and carries
    /// no match yet.
    pub fn from_skill(skill: &SkillDescriptor) -> (r: InlineItem)
        ensures
            r.action == (AcceptSlashCommandOrSavedPrompt::Skill {
                reference: skill.reference,
                name: skill.name,
            }),
            r.icon == ItemIcon::Icon(spec_skill_icon(skill.icon_override, skill.provider)),
            r.name@ == seq!['/'] + skill.name@,
            r.description == Some(skill.description),
            r.name_match_result is None,
            r.description_match_result is None,
    {
        InlineItem {
            action: AcceptSlashCommandOrSavedPrompt::Skill {
                reference: skill.reference.clone(),
                name: skill.name.clone(),
            },
            icon: ItemIcon::Icon(skill_icon(skill.icon_override, &skill.provider)),
            name: skill_item_name(skill.name.as_str()),
            description: Some(skill.description.clone()),
            name_match_result: None,
            description_match_result: None,
        }
    }

    /// This entry with `result` as the match of the query on its name.
    pub fn with_name_match_result(self, result: Option<FuzzyMatchResult>) -> (r: InlineItem)
        ensures
            r == (InlineItem { name_match_result: result, ..self }),
    {
        InlineItem { name_match_result: result, ..self }
    }

    /// This entry with `result` as the match of the query on its description.
    pub fn with_description_match_result(self, result: Option<FuzzyMatchResult>) -> (r:
        InlineItem)
        ensures
            r == (InlineItem { description_match_result: result, ..self }),
    {
        InlineItem { description_match_result: result, ..self }
    }
}

/// How the query matched one candidate of the menu, a command or a skill:
/// whether the fuzzy matcher matched it at all, and whether its score is
/// above the threshold that applies past the first typed character.
pub struct MatchOutcome {
    pub matched: bool,
    pub score_above_threshold: bool,
}

/// Whether a candidate with `outcome` is listed for a query of `query_len`
/// bytes: it must match, and once more than one character is typed its
/// score must be above the threshold.
pub open spec fn spec_is_listed(query_len: usize, outcome: MatchOutcome) -> bool {
    outcome.matched && (query_len <= 1 || outcome.score_above_threshold)
}

/// The positions of the candidates that are listed, in candidate order.
pub open spec fn spec_listed_candidates(query_len: usize, outcomes: Seq<MatchOutcome>) -> Seq<
    usize,
> {
    Seq::new(outcomes.len(), |i: int| i as usize).filter(
        |i: usize| spec_is_listed(query_len, outcomes[i as int]),
    )
}

/// Whether a candidate with `outcome` is listed for a query of `query_len`
/// bytes.
pub fn is_listed(query_len: usize, outcome: &MatchOutcome) -> (r: bool)
    ensures
        r == spec_is_listed(query_len, *outcome),
{
    outcome.matched && (query_len <= 1 || outcome.score_above_threshold)
}

/// The positions of the candidates that a query of `query_len` bytes lists,
/// in candidate order.
pub fn listed_candidates(query_len: usize, outcomes: &Vec<MatchOutcome>) -> (r: Vec<usize>)
    ensures
        r@ == spec_listed_candidates(query_len, outcomes@),
{
    let ghost pred = |i: usize| spec_is_listed(query_len, outcomes@[i as int]);
    let ghost all = Seq::new(outcomes@.len(), |i: int| i as usize);
    let mut listed: Vec<usize> = Vec::new();
    let mut i: usize = 0;
    while i < outcomes.len()
        invariant
            i <= outcomes@.len(),
            pred == (|i: usize| spec_is_listed(query_len, outcomes@[i as int])),
            all == Seq::new(outcomes@.len(), |i: int| i as usize),
            listed@ == all.take(i as int).filter(pred),
        decreases outcomes@.len() - i,
    {
        proof {
            assert(all.take(i + 1) =~= all.take(i as int).push(i));
            lemma_filter_push(all.take(i as int), pred, i);
        }
        if is_listed(query_len, &outcomes[i]) {
            listed.push(i);
        }
        i = i + 1;
    }
    proof {
        assert(all.take(i as int) =~= all);
    }
    listed
}

} // verus!
