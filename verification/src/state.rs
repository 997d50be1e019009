//! The pipeline state machine: the orchestrator of one commit run. It owns
//! the only mutable state, reacts to worker events, and decides which outside
//! actions to start — staging, credential validation, generation, commit, and
//! the rollback that unstages everything when a run fails after staging. The
//! embedding program performs the returned effects and feeds the resulting
//! events back in; every transition here is a pure function of the current
//! state, the event, and the injected clock reading.

use vstd::prelude::*;
use crate::config::Args;
use crate::prompt::FileInfo;
use crate::prompt::FileInfoV;
use crate::prompt::user_prompt_spec;
use crate::prompt::build_user_prompt;
use crate::repo::StagedSummary;
use crate::repo::StagedSummaryV;
use crate::sanitize::title_spec;
use crate::sanitize::body_spec;
use crate::sanitize::parse_commit_message;
use crate::session::timed_out_spec;
use crate::session::generation_timed_out;

verus! {

/// The states of one pipeline run. `ApiKeyInput` and `ApiKeyValidating`
/// handle the credential; `Staging`, `Generating` and `Committing` are the
/// working stages; `Done` and `Error` are the terminal displays.
#[derive(Debug)]
pub enum AppState {
    ApiKeyInput { input: String, cursor: usize, error: Option<String> },
    ApiKeyValidating,
    Staging { branch: String },
    Generating { branch: String, files: Vec<FileInfo>, generated: String, started_at_ms: u64 },
    Committing { branch: String, files: Vec<FileInfo>, message: String },
    Done { branch: String, files: Vec<FileInfo>, message: String, done_at_ms: u64 },
    Error { message: String, retryable: bool },
}

/// The mathematical value of an [`AppState`].
#[verifier::ext_equal]
pub ghost enum AppStateV {
    ApiKeyInput { input: Seq<char>, cursor: nat, error: Option<Seq<char>> },
    ApiKeyValidating,
    Staging { branch: Seq<char> },
    Generating { branch: Seq<char>, files: Seq<FileInfoV>, generated: Seq<char>, started_at_ms: u64 },
    Committing { branch: Seq<char>, files: Seq<FileInfoV>, message: Seq<char> },
    Done { branch: Seq<char>, files: Seq<FileInfoV>, message: Seq<char>, done_at_ms: u64 },
    Error { message: Seq<char>, retryable: bool },
}

impl View for AppState {
    type V = AppStateV;

    open spec fn view(&self) -> AppStateV {
        match self {
            AppState::ApiKeyInput { input, cursor, error } => AppStateV::ApiKeyInput {
                input: input@,
                cursor: *cursor as nat,
                error: match error {
                    Some(e) => Some(e@),
                    None => None,
                },
            },
            AppState::ApiKeyValidating => AppStateV::ApiKeyValidating,
            AppState::Staging { branch } => AppStateV::Staging { branch: branch@ },
            AppState::Generating { branch, files, generated, started_at_ms } => AppStateV::Generating {
                branch: branch@,
                files: files.deep_view(),
                generated: generated@,
                started_at_ms: *started_at_ms,
            },
            AppState::Committing { branch, files, message } => AppStateV::Committing {
                branch: branch@,
                files: files.deep_view(),
                message: message@,
            },
            AppState::Done { branch, files, message, done_at_ms } => AppStateV::Done {
                branch: branch@,
                files: files.deep_view(),
                message: message@,
                done_at_ms: *done_at_ms,
            },
            AppState::Error { message, retryable } => AppStateV::Error {
                message: message@,
                retryable: *retryable,
            },
        }
    }
}

/// The events workers report back to the orchestrator.
#[derive(Debug)]
pub enum AppEvent {
    ApiKeyEntered(String),
    ApiKeyValidated,
    ApiKeyValidationFailed(String),
    StagingComplete(StagedSummary),
    StagingFailed(String),
    GenerationChunk(String),
    GenerationComplete(String),
    GenerationFailed(String),
    CommitComplete,
    CommitFailed(String),
}

/// The mathematical value of an [`AppEvent`].
#[verifier::ext_equal]
pub ghost enum AppEventV {
    ApiKeyEntered(Seq<char>),
    ApiKeyValidated,
    ApiKeyValidationFailed(Seq<char>),
    StagingComplete(StagedSummaryV),
    StagingFailed(Seq<char>),
    GenerationChunk(Seq<char>),
    GenerationComplete(Seq<char>),
    GenerationFailed(Seq<char>),
    CommitComplete,
    CommitFailed(Seq<char>),
}

impl DeepView for AppEvent {
    type V = AppEventV;

    open spec fn deep_view(&self) -> AppEventV {
        self.view()
    }
}

impl View for AppEvent {
    type V = AppEventV;

    open spec fn view(&self) -> AppEventV {
        match self {
            AppEvent::ApiKeyEntered(k) => AppEventV::ApiKeyEntered(k@),
            AppEvent::ApiKeyValidated => AppEventV::ApiKeyValidated,
            AppEvent::ApiKeyValidationFailed(e) => AppEventV::ApiKeyValidationFailed(e@),
            AppEvent::StagingComplete(s) => AppEventV::StagingComplete(s@),
            AppEvent::StagingFailed(e) => AppEventV::StagingFailed(e@),
            AppEvent::GenerationChunk(c) => AppEventV::GenerationChunk(c@),
            AppEvent::GenerationComplete(r) => AppEventV::GenerationComplete(r@),
            AppEvent::GenerationFailed(e) => AppEventV::GenerationFailed(e@),
            AppEvent::CommitComplete => AppEventV::CommitComplete,
            AppEvent::CommitFailed(e) => AppEventV::CommitFailed(e@),
        }
    }
}

/// The snapshot kept for display after the run ends.
#[derive(Debug)]
pub struct AppResult {
    pub branch: String,
    pub files: Vec<FileInfo>,
    pub message: String,
    pub dry_run: bool,
}

/// The mathematical value of an [`AppResult`].
#[verifier::ext_equal]
pub ghost struct AppResultV {
    pub branch: Seq<char>,
    pub files: Seq<FileInfoV>,
    pub message: Seq<char>,
    pub dry_run: bool,
}

impl View for AppResult {
    type V = AppResultV;

    open spec fn view(&self) -> AppResultV {
        AppResultV {
            branch: self.branch@,
            files: self.files.deep_view(),
            message: self.message@,
            dry_run: self.dry_run,
        }
    }
}

impl DeepView for AppResult {
    type V = AppResultV;

    open spec fn deep_view(&self) -> AppResultV {
        self.view()
    }
}

/// One outside action the orchestrator asks the embedding program to start.
#[derive(Debug)]
pub enum Effect {
    /// Validate the entered credential against the provider.
    ValidateKey { api_key: String },
    /// Persist the credential that just validated.
    PersistKey { api_key: String },
    /// Stage all working-tree changes and extract the staged summary.
    StartStaging,
    /// Run the streamed generation call.
    StartGeneration { api_key: String, model: String, user_prompt: String },
    /// Create the commit with the generated message.
    StartCommit { title: String, body: Option<String> },
    /// Roll the index back to the last commit.
    Unstage,
}

/// The mathematical value of an [`Effect`].
#[verifier::ext_equal]
pub ghost enum EffectV {
    ValidateKey { api_key: Seq<char> },
    PersistKey { api_key: Seq<char> },
    StartStaging,
    StartGeneration { api_key: Seq<char>, model: Seq<char>, user_prompt: Seq<char> },
    StartCommit { title: Seq<char>, body: Option<Seq<char>> },
    Unstage,
}

impl View for Effect {
    type V = EffectV;

    open spec fn view(&self) -> EffectV {
        match self {
            Effect::ValidateKey { api_key } => EffectV::ValidateKey { api_key: api_key@ },
            Effect::PersistKey { api_key } => EffectV::PersistKey { api_key: api_key@ },
            Effect::StartStaging => EffectV::StartStaging,
            Effect::StartGeneration { api_key, model, user_prompt } => EffectV::StartGeneration {
                api_key: api_key@,
                model: model@,
                user_prompt: user_prompt@,
            },
            Effect::StartCommit { title, body } => EffectV::StartCommit {
                title: title@,
                body: match body {
                    Some(b) => Some(b@),
                    None => None,
                },
            },
            Effect::Unstage => EffectV::Unstage,
        }
    }
}

impl DeepView for Effect {
    type V = EffectV;

    open spec fn deep_view(&self) -> EffectV {
        self.view()
    }
}

/// One key press the orchestrator reacts to.
#[derive(Debug, Clone, Copy, PartialEq, Eq, Structural)]
pub enum InputKey {
    Char(char),
    Backspace,
    Delete,
    Left,
    Right,
    Enter,
    Esc,
    Other,
}

/// The orchestrator: the single owner of the pipeline state.
#[derive(Debug)]
pub struct Pipeline {
    pub state: AppState,
    pub api_key: Option<String>,
    pub model: String,
    pub dry_run: bool,
    pub result: Option<AppResult>,
}

/// The mathematical value of a [`Pipeline`].
#[verifier::ext_equal]
pub ghost struct PipelineV {
    pub state: AppStateV,
    pub api_key: Option<Seq<char>>,
    pub model: Seq<char>,
    pub dry_run: bool,
    pub result: Option<AppResultV>,
}

impl View for Pipeline {
    type V = PipelineV;

    open spec fn view(&self) -> PipelineV {
        PipelineV {
            state: self.state@,
            api_key: self.api_key.deep_view(),
            model: self.model@,
            dry_run: self.dry_run,
            result: self.result.deep_view(),
        }
    }
}

/// The result of one transition: the new pipeline value and the effects the
/// embedding program must start.
#[verifier::ext_equal]
pub ghost struct StepV {
    pub pipeline: PipelineV,
    pub effects: Seq<EffectV>,
}

/// Whether a failure in this state must roll the index back: exactly the
/// states a run reaches after staging succeeded or was started.
pub open spec fn must_unstage(s: AppStateV) -> bool {
    s is Staging || s is Generating || s is Committing
}

/// The transition into the failed state: rollback is requested exactly when
/// the run was in a staged stage.
pub open spec fn fail_spec(p: PipelineV, msg: Seq<char>, retryable: bool) -> StepV {
    StepV {
        pipeline: PipelineV { state: AppStateV::Error { message: msg, retryable }, ..p },
        effects: if must_unstage(p.state) {
            seq![EffectV::Unstage]
        } else {
            Seq::<EffectV>::empty()
        },
    }
}

/// The commit message assembled from the sanitized title and optional body.
pub open spec fn full_message_spec(raw: Seq<char>) -> Seq<char> {
    match body_spec(raw) {
        Some(b) => title_spec(raw) + "\n\n"@ + b,
        None => title_spec(raw),
    }
}

/// The transition relation of the pipeline: for every state and event, the
/// next pipeline value and the effects to start.
pub open spec fn step_spec(p: PipelineV, e: AppEventV, now_ms: u64) -> StepV {
    match e {
        AppEventV::ApiKeyEntered(key) => StepV {
            pipeline: PipelineV {
                state: AppStateV::ApiKeyValidating,
                api_key: Some(key),
                ..p
            },
            effects: seq![EffectV::ValidateKey { api_key: key }],
        },
        AppEventV::ApiKeyValidated => StepV {
            pipeline: PipelineV { state: AppStateV::Staging { branch: "unknown"@ }, ..p },
            effects: match p.api_key {
                Some(k) => seq![EffectV::PersistKey { api_key: k }, EffectV::StartStaging],
                None => seq![EffectV::StartStaging],
            },
        },
        AppEventV::ApiKeyValidationFailed(err) => StepV {
            pipeline: PipelineV {
                state: AppStateV::ApiKeyInput {
                    input: Seq::<char>::empty(),
                    cursor: 0,
                    error: Some(err),
                },
                ..p
            },
            effects: Seq::<EffectV>::empty(),
        },
        AppEventV::StagingComplete(summary) => match p.api_key {
            None => fail_spec(p, "No API key"@, true),
            Some(key) => StepV {
                pipeline: PipelineV {
                    state: AppStateV::Generating {
                        branch: summary.branch,
                        files: summary.files,
                        generated: Seq::<char>::empty(),
                        started_at_ms: now_ms,
                    },
                    ..p
                },
                effects: seq![
                    EffectV::StartGeneration {
                        api_key: key,
                        model: p.model,
                        user_prompt: user_prompt_spec(summary.branch, summary.files),
                    },
                ],
            },
        },
        AppEventV::StagingFailed(err) => fail_spec(p, err, false),
        AppEventV::GenerationChunk(c) => StepV {
            pipeline: PipelineV {
                state: match p.state {
                    AppStateV::Generating { branch, files, generated, started_at_ms } => AppStateV::Generating {
                        branch,
                        files,
                        generated: generated + c,
                        started_at_ms,
                    },
                    s => s,
                },
                ..p
            },
            effects: Seq::<EffectV>::empty(),
        },
        AppEventV::GenerationComplete(raw) => match p.state {
            AppStateV::Generating { branch, files, .. } => {
                if p.dry_run {
                    StepV {
                        pipeline: PipelineV {
                            state: AppStateV::Done {
                                branch,
                                files,
                                message: full_message_spec(raw),
                                done_at_ms: now_ms,
                            },
                            result: Some(
                                AppResultV {
                                    branch,
                                    files,
                                    message: full_message_spec(raw),
                                    dry_run: true,
                                },
                            ),
                            ..p
                        },
                        effects: Seq::<EffectV>::empty(),
                    }
                } else {
                    StepV {
                        pipeline: PipelineV {
                            state: AppStateV::Committing {
                                branch,
                                files,
                                message: full_message_spec(raw),
                            },
                            result: Some(
                                AppResultV {
                                    branch,
                                    files,
                                    message: full_message_spec(raw),
                                    dry_run: false,
                                },
                            ),
                            ..p
                        },
                        effects: seq![
                            EffectV::StartCommit {
                                title: title_spec(raw),
                                body: body_spec(raw),
                            },
                        ],
                    }
                }
            },
            _ => StepV { pipeline: p, effects: Seq::<EffectV>::empty() },
        },
        AppEventV::GenerationFailed(err) => fail_spec(p, err, true),
        AppEventV::CommitComplete => match p.state {
            AppStateV::Committing { branch, files, message } => StepV {
                pipeline: PipelineV {
                    state: AppStateV::Done { branch, files, message, done_at_ms: now_ms },
                    ..p
                },
                effects: Seq::<EffectV>::empty(),
            },
            _ => StepV { pipeline: p, effects: Seq::<EffectV>::empty() },
        },
        AppEventV::CommitFailed(err) => fail_spec(p, err, false),
    }
}

/// Copies a file list, value for value.
pub fn clone_files(files: &Vec<FileInfo>) -> (r: Vec<FileInfo>)
    ensures
        r.deep_view() == files.deep_view(),
{
    let mut r: Vec<FileInfo> = Vec::new();
    let mut i: usize = 0;
    while i < files.len()
        invariant
            0 <= i <= files.len(),
            r.deep_view() == files.deep_view().take(i as int),
        decreases files.len() - i,
    {
        let c = files[i].clone_info();
        proof {
            assert(c@ == files.deep_view()[i as int]);
        }
        let ghost r_before = r.deep_view();
        r.push(c);
        proof {
            assert(r.deep_view() =~~= r_before.push(c@));
            assert(files.deep_view().take(i + 1) =~= r_before.push(c@));
        }
        i += 1;
    }
    proof {
        assert(files.deep_view().take(files.deep_view().len() as int) =~= files.deep_view());
    }
    r
}

impl Pipeline {
    /// Moves the pipeline into the failed state; rollback is requested
    /// exactly when the run was in a staged stage.
    fn fail_with(&mut self, message: String, retryable: bool) -> (effects: Vec<Effect>)
        ensures
            final(self)@ == fail_spec(old(self)@, message@, retryable).pipeline,
            effects.deep_view() == fail_spec(old(self)@, message@, retryable).effects,
    {
        let need_unstage: bool = matches!(
            self.state,
            AppState::Staging { .. } | AppState::Generating { .. } | AppState::Committing { .. }
        );
        self.state = AppState::Error { message, retryable };
        let mut effects: Vec<Effect> = Vec::new();
        if need_unstage {
            effects.push(Effect::Unstage);
            proof {
                assert(effects.deep_view() =~= seq![EffectV::Unstage]);
            }
        } else {
            proof {
                assert(effects.deep_view() =~= Seq::<EffectV>::empty());
            }
        }
        proof {
            assert(final(self)@ =~~= fail_spec(old(self)@, message@, retryable).pipeline);
        }
        effects
    }

    /// Applies one worker event to the pipeline and returns the effects to
    /// start, exactly as [`step_spec`] prescribes.
    pub fn handle_event(&mut self, event: AppEvent, now_ms: u64) -> (effects: Vec<Effect>)
        ensures
            final(self)@ == step_spec(old(self)@, event@, now_ms).pipeline,
            effects.deep_view() == step_spec(old(self)@, event@, now_ms).effects,
    {
        let ghost pre = self@;
        let ghost ev = event@;
        match event {
            AppEvent::ApiKeyEntered(key) => {
                self.api_key = Some(key.clone());
                self.state = AppState::ApiKeyValidating;
                let mut effects: Vec<Effect> = Vec::new();
                effects.push(Effect::ValidateKey { api_key: key });
                proof {
                    assert(final(self)@ =~~= step_spec(pre, ev, now_ms).pipeline);
                    assert(effects.deep_view() =~= step_spec(pre, ev, now_ms).effects);
                }
                effects
            },
            AppEvent::ApiKeyValidated => {
                let mut effects: Vec<Effect> = Vec::new();
                match &self.api_key {
                    Some(k) => {
                        effects.push(Effect::PersistKey { api_key: k.clone() });
                    },
                    None => {},
                }
                effects.push(Effect::StartStaging);
                self.state = AppState::Staging { branch: "unknown".to_owned() };
                proof {
                    assert(final(self)@ =~~= step_spec(pre, ev, now_ms).pipeline);
                    assert(effects.deep_view() =~= step_spec(pre, ev, now_ms).effects);
                }
                effects
            },
            AppEvent::ApiKeyValidationFailed(err) => {
                self.state = AppState::ApiKeyInput { input: String::new(), cursor: 0, error: Some(err) };
                let effects: Vec<Effect> = Vec::new();
                proof {
                    assert(final(self)@ =~~= step_spec(pre, ev, now_ms).pipeline);
                    assert(effects.deep_view() =~= step_spec(pre, ev, now_ms).effects);
                }
                effects
            },
            AppEvent::StagingComplete(summary) => {
                let key: Option<String> = match &self.api_key {
                    Some(k) => Some(k.clone()),
                    None => None,
                };
                match key {
                    None => {
                        let effects = self.fail_with("No API key".to_owned(), true);
                        proof {
                            assert(final(self)@ =~~= step_spec(pre, ev, now_ms).pipeline);
                            assert(effects.deep_view() =~= step_spec(pre, ev, now_ms).effects);
                        }
                        effects
                    },
                    Some(k) => {
                        let user_prompt = build_user_prompt(
                            summary.branch.as_str(),
                            &summary.files,
                        );
                        let model = self.model.clone();
                        self.state = AppState::Generating {
                            branch: summary.branch,
                            files: summary.files,
                            generated: String::new(),
                            started_at_ms: now_ms,
                        };
                        let mut effects: Vec<Effect> = Vec::new();
                        effects.push(
                            Effect::StartGeneration { api_key: k, model, user_prompt },
                        );
                        proof {
                            assert(final(self)@ =~~= step_spec(pre, ev, now_ms).pipeline);
                            assert(effects.deep_view() =~= step_spec(pre, ev, now_ms).effects);
                        }
                        effects
                    },
                }
            },
            AppEvent::StagingFailed(err) => {
                let effects = self.fail_with(err, false);
                proof {
                    assert(final(self)@ =~~= step_spec(pre, ev, now_ms).pipeline);
                    assert(effects.deep_view() =~= step_spec(pre, ev, now_ms).effects);
                }
                effects
            },
            AppEvent::GenerationChunk(chunk) => {
                let next: Option<AppState> = match &self.state {
                    AppState::Generating { branch, files, generated, started_at_ms } => {
                        let mut g = generated.clone();
                        g.append(chunk.as_str());
                        Some(
                            AppState::Generating {
                                branch: branch.clone(),
                                files: clone_files(files),
                                generated: g,
                                started_at_ms: *started_at_ms,
                            },
                        )
                    },
                    _ => None,
                };
                match next {
                    Some(st) => {
                        self.state = st;
                    },
                    None => {},
                }
                let effects: Vec<Effect> = Vec::new();
                proof {
                    assert(final(self)@ =~~= step_spec(pre, ev, now_ms).pipeline);
                    assert(effects.deep_view() =~= step_spec(pre, ev, now_ms).effects);
                }
                effects
            },
            AppEvent::GenerationComplete(raw) => {
                let in_generating: bool = matches!(self.state, AppState::Generating { .. });
                if !in_generating {
                    let effects: Vec<Effect> = Vec::new();
                    proof {
                        assert(final(self)@ =~~= step_spec(pre, ev, now_ms).pipeline);
                        assert(effects.deep_view() =~= step_spec(pre, ev, now_ms).effects);
                    }
                    return effects;
                }
                let (title, body) = parse_commit_message(raw.as_str());
                let mut message = title.clone();
                match &body {
                    Some(b) => {
                        message.append("\n\n");
                        message.append(b.as_str());
                    },
                    None => {},
                }
                proof {
                    assert(message@ =~= full_message_spec(raw@));
                }
                let (branch, files): (String, Vec<FileInfo>) = match &self.state {
                    AppState::Generating { branch, files, .. } => (
                        branch.clone(),
                        clone_files(files),
                    ),
                    _ => (String::new(), Vec::new()),
                };
                if self.dry_run {
                    self.result = Some(
                        AppResult {
                            branch: branch.clone(),
                            files: clone_files(&files),
                            message: message.clone(),
                            dry_run: true,
                        },
                    );
                    self.state = AppState::Done {
                        branch,
                        files,
                        message,
                        done_at_ms: now_ms,
                    };
                    let effects: Vec<Effect> = Vec::new();
                    proof {
                        assert(final(self)@ =~~= step_spec(pre, ev, now_ms).pipeline);
                        assert(effects.deep_view() =~= step_spec(pre, ev, now_ms).effects);
                    }
                    effects
                } else {
                    self.result = Some(
                        AppResult {
                            branch: branch.clone(),
                            files: clone_files(&files),
                            message: message.clone(),
                            dry_run: false,
                        },
                    );
                    self.state = AppState::Committing { branch, files, message };
                    let mut effects: Vec<Effect> = Vec::new();
                    effects.push(Effect::StartCommit { title, body });
                    proof {
                        assert(final(self)@ =~~= step_spec(pre, ev, now_ms).pipeline);
                        assert(effects.deep_view() =~= step_spec(pre, ev, now_ms).effects);
                    }
                    effects
                }
            },
            AppEvent::GenerationFailed(err) => {
                let effects = self.fail_with(err, true);
                proof {
                    assert(final(self)@ =~~= step_spec(pre, ev, now_ms).pipeline);
                    assert(effects.deep_view() =~= step_spec(pre, ev, now_ms).effects);
                }
                effects
            },
            AppEvent::CommitComplete => {
                let next: Option<AppState> = match &self.state {
                    AppState::Committing { branch, files, message } => Some(
                        AppState::Done {
                            branch: branch.clone(),
                            files: clone_files(files),
                            message: message.clone(),
                            done_at_ms: now_ms,
                        },
                    ),
                    _ => None,
                };
                match next {
                    Some(st) => {
                        self.state = st;
                    },
                    None => {},
                }
                let effects: Vec<Effect> = Vec::new();
                proof {
                    assert(final(self)@ =~~= step_spec(pre, ev, now_ms).pipeline);
                    assert(effects.deep_view() =~= step_spec(pre, ev, now_ms).effects);
                }
                effects
            },
            AppEvent::CommitFailed(err) => {
                let effects = self.fail_with(err, false);
                proof {
                    assert(final(self)@ =~~= step_spec(pre, ev, now_ms).pipeline);
                    assert(effects.deep_view() =~= step_spec(pre, ev, now_ms).effects);
                }
                effects
            },
        }
    }
}

/// The result of one key press: the new pipeline value, an event to feed
/// back, and the effects to start.
#[verifier::ext_equal]
pub ghost struct KeyStepV {
    pub pipeline: PipelineV,
    pub event: Option<AppEventV>,
    pub effects: Seq<EffectV>,
}

/// A cursor clamped into the input.
pub open spec fn clamped(cursor: nat, len: nat) -> nat {
    if cursor <= len {
        cursor
    } else {
        len
    }
}

/// How a key press acts on the pipeline: editing in the credential prompt,
/// retry and re-entry in the failed state, nothing elsewhere.
pub open spec fn key_spec(p: PipelineV, key: InputKey) -> KeyStepV {
    match p.state {
        AppStateV::ApiKeyInput { input, cursor, error } => {
            let cu = clamped(cursor, input.len());
            match key {
                InputKey::Char(c) => KeyStepV {
                    pipeline: PipelineV {
                        state: AppStateV::ApiKeyInput {
                            input: input.take(cu as int) + seq![c] + input.skip(cu as int),
                            cursor: cu + 1,
                            error: None,
                        },
                        ..p
                    },
                    event: None,
                    effects: Seq::<EffectV>::empty(),
                },
                InputKey::Backspace => if cu > 0 {
                    KeyStepV {
                        pipeline: PipelineV {
                            state: AppStateV::ApiKeyInput {
                                input: input.take(cu - 1) + input.skip(cu as int),
                                cursor: (cu - 1) as nat,
                                error: None,
                            },
                            ..p
                        },
                        event: None,
                        effects: Seq::<EffectV>::empty(),
                    }
                } else {
                    cleared_spec(p, input, cu)
                },
                InputKey::Delete => if cu < input.len() {
                    KeyStepV {
                        pipeline: PipelineV {
                            state: AppStateV::ApiKeyInput {
                                input: input.take(cu as int) + input.skip(cu as int + 1),
                                cursor: cu,
                                error: None,
                            },
                            ..p
                        },
                        event: None,
                        effects: Seq::<EffectV>::empty(),
                    }
                } else {
                    cleared_spec(p, input, cu)
                },
                InputKey::Left => if cu > 0 {
                    KeyStepV {
                        pipeline: PipelineV {
                            state: AppStateV::ApiKeyInput {
                                input: input,
                                cursor: (cu - 1) as nat,
                                error: None,
                            },
                            ..p
                        },
                        event: None,
                        effects: Seq::<EffectV>::empty(),
                    }
                } else {
                    cleared_spec(p, input, cu)
                },
                InputKey::Right => if cu < input.len() {
                    KeyStepV {
                        pipeline: PipelineV {
                            state: AppStateV::ApiKeyInput {
                                input: input,
                                cursor: cu + 1,
                                error: None,
                            },
                            ..p
                        },
                        event: None,
                        effects: Seq::<EffectV>::empty(),
                    }
                } else {
                    cleared_spec(p, input, cu)
                },
                InputKey::Enter => if input.len() > 0 {
                    KeyStepV {
                        pipeline: PipelineV {
                            state: AppStateV::ApiKeyInput { input: input, cursor: cu, error: None },
                            ..p
                        },
                        event: Some(AppEventV::ApiKeyEntered(input)),
                        effects: Seq::<EffectV>::empty(),
                    }
                } else {
                    cleared_spec(p, input, cu)
                },
                _ => cleared_spec(p, input, cu),
            }
        },
        AppStateV::Error { message, retryable } => {
            if (key == InputKey::Char('r') || key == InputKey::Char('R')) && retryable {
                KeyStepV {
                    pipeline: PipelineV {
                        state: AppStateV::Staging { branch: "unknown"@ },
                        ..p
                    },
                    event: None,
                    effects: seq![EffectV::StartStaging],
                }
            } else if key == InputKey::Char('k') || key == InputKey::Char('K') {
                KeyStepV {
                    pipeline: PipelineV {
                        state: AppStateV::ApiKeyInput {
                            input: Seq::<char>::empty(),
                            cursor: 0,
                            error: None,
                        },
                        ..p
                    },
                    event: None,
                    effects: Seq::<EffectV>::empty(),
                }
            } else {
                KeyStepV { pipeline: p, event: None, effects: Seq::<EffectV>::empty() }
            }
        },
        _ => KeyStepV { pipeline: p, event: None, effects: Seq::<EffectV>::empty() },
    }
}

/// The credential prompt with only its error message cleared.
pub open spec fn cleared_spec(p: PipelineV, input: Seq<char>, cu: nat) -> KeyStepV {
    KeyStepV {
        pipeline: PipelineV {
            state: AppStateV::ApiKeyInput { input: input, cursor: cu, error: None },
            ..p
        },
        event: None,
        effects: Seq::<EffectV>::empty(),
    }
}

/// Whether a key press asks to leave the program.
pub open spec fn quit_key_spec(key: InputKey) -> bool {
    key == InputKey::Esc || key == InputKey::Char('q') || key == InputKey::Char('Q')
}

/// Decides whether a key press asks to leave the program.
pub fn is_quit_key(key: InputKey) -> (r: bool)
    ensures
        r == quit_key_spec(key),
{
    match key {
        InputKey::Esc => true,
        InputKey::Char(c) => c == 'q' || c == 'Q',
        _ => false,
    }
}

impl Pipeline {
    /// Applies one key press, exactly as [`key_spec`] prescribes; a returned
    /// event is fed back through [`Pipeline::handle_event`].
    pub fn handle_key(&mut self, key: InputKey) -> (r: (Option<AppEvent>, Vec<Effect>))
        ensures
            final(self)@ == key_spec(old(self)@, key).pipeline,
            r.0.deep_view() == key_spec(old(self)@, key).event,
            r.1.deep_view() == key_spec(old(self)@, key).effects,
    {
        let ghost pre = self@;
        let no_effects: Vec<Effect> = Vec::new();
        proof {
            assert(no_effects.deep_view() =~= Seq::<EffectV>::empty());
        }
        match &self.state {
            AppState::ApiKeyInput { input, cursor, .. } => {
                let text: String = input.clone();
                let len: usize = text.as_str().unicode_len();
                let cu: usize = if *cursor <= len {
                    *cursor
                } else {
                    len
                };
                match key {
                    InputKey::Char(c) => {
                        let mut edited = text.as_str().substring_char(0, cu).to_owned();
                        edited.push(c);
                        let ncur: usize = edited.as_str().unicode_len();
                        edited.append(text.as_str().substring_char(cu, len));
                        proof {
                            assert(edited@ =~= pre.state->ApiKeyInput_input.take(cu as int)
                                + seq![c] + pre.state->ApiKeyInput_input.skip(cu as int));
                        }
                        self.state = AppState::ApiKeyInput {
                            input: edited,
                            cursor: ncur,
                            error: None,
                        };
                        proof {
                            assert(final(self)@ =~~= key_spec(pre, key).pipeline);
                        }
                        (None, no_effects)
                    },
                    InputKey::Backspace => {
                        if cu > 0 {
                            let mut edited = text.as_str().substring_char(0, cu - 1).to_owned();
                            edited.append(text.as_str().substring_char(cu, len));
                            proof {
                                assert(edited@ =~= pre.state->ApiKeyInput_input.take(cu - 1)
                                    + pre.state->ApiKeyInput_input.skip(cu as int));
                            }
                            self.state = AppState::ApiKeyInput {
                                input: edited,
                                cursor: cu - 1,
                                error: None,
                            };
                        } else {
                            self.state = AppState::ApiKeyInput {
                                input: text,
                                cursor: cu,
                                error: None,
                            };
                        }
                        proof {
                            assert(final(self)@ =~~= key_spec(pre, key).pipeline);
                        }
                        (None, no_effects)
                    },
                    InputKey::Delete => {
                        if cu < len {
                            let mut edited = text.as_str().substring_char(0, cu).to_owned();
                            edited.append(text.as_str().substring_char(cu + 1, len));
                            proof {
                                assert(edited@ =~= pre.state->ApiKeyInput_input.take(cu as int)
                                    + pre.state->ApiKeyInput_input.skip(cu + 1));
                            }
                            self.state = AppState::ApiKeyInput {
                                input: edited,
                                cursor: cu,
                                error: None,
                            };
                        } else {
                            self.state = AppState::ApiKeyInput {
                                input: text,
                                cursor: cu,
                                error: None,
                            };
                        }
                        proof {
                            assert(final(self)@ =~~= key_spec(pre, key).pipeline);
                        }
                        (None, no_effects)
                    },
                    InputKey::Left => {
                        let nc: usize = if cu > 0 {
                            cu - 1
                        } else {
                            cu
                        };
                        self.state = AppState::ApiKeyInput { input: text, cursor: nc, error: None };
                        proof {
                            assert(final(self)@ =~~= key_spec(pre, key).pipeline);
                        }
                        (None, no_effects)
                    },
                    InputKey::Right => {
                        let nc: usize = if cu < len {
                            cu + 1
                        } else {
                            cu
                        };
                        self.state = AppState::ApiKeyInput { input: text, cursor: nc, error: None };
                        proof {
                            assert(final(self)@ =~~= key_spec(pre, key).pipeline);
                        }
                        (None, no_effects)
                    },
                    InputKey::Enter => {
                        let submitted: Option<AppEvent> = if len > 0 {
                            Some(AppEvent::ApiKeyEntered(text.clone()))
                        } else {
                            None
                        };
                        self.state = AppState::ApiKeyInput { input: text, cursor: cu, error: None };
                        proof {
                            assert(final(self)@ =~~= key_spec(pre, key).pipeline);
                        }
                        (submitted, no_effects)
                    },
                    _ => {
                        self.state = AppState::ApiKeyInput { input: text, cursor: cu, error: None };
                        proof {
                            assert(final(self)@ =~~= key_spec(pre, key).pipeline);
                        }
                        (None, no_effects)
                    },
                }
            },
            AppState::Error { retryable, .. } => {
                let retry: bool = *retryable && matches!(key, InputKey::Char('r') | InputKey::Char('R'));
                let reenter: bool = matches!(key, InputKey::Char('k') | InputKey::Char('K'));
                if retry {
                    self.state = AppState::Staging { branch: "unknown".to_owned() };
                    let mut effects: Vec<Effect> = Vec::new();
                    effects.push(Effect::StartStaging);
                    proof {
                        assert(final(self)@ =~~= key_spec(pre, key).pipeline);
                        assert(effects.deep_view() =~= key_spec(pre, key).effects);
                    }
                    (None, effects)
                } else if reenter {
                    self.state = AppState::ApiKeyInput {
                        input: String::new(),
                        cursor: 0,
                        error: None,
                    };
                    proof {
                        assert(final(self)@ =~~= key_spec(pre, key).pipeline);
                    }
                    (None, no_effects)
                } else {
                    proof {
                        assert(final(self)@ =~~= key_spec(pre, key).pipeline);
                    }
                    (None, no_effects)
                }
            },
            _ => {
                proof {
                    assert(final(self)@ =~~= key_spec(pre, key).pipeline);
                }
                (None, no_effects)
            },
        }
    }

    /// Builds the pipeline for one run. The credential prompt is shown when
    /// re-entry was requested or no usable credential is available;
    /// otherwise the run starts at staging.
    pub fn new(args: Args, api_key: Option<String>, model: String) -> (p: Pipeline)
        ensures
            p@.state == (if args.reset_cache || args.reset_key || api_key.deep_view() is None {
                AppStateV::ApiKeyInput { input: Seq::<char>::empty(), cursor: 0, error: None }
            } else {
                AppStateV::Staging { branch: "unknown"@ }
            }),
            p@.api_key == api_key.deep_view(),
            p@.model == model@,
            p@.dry_run == args.dry_run,
            p@.result is None,
    {
        let needs_key: bool = args.reset_cache || args.reset_key || api_key.is_none();
        let state = if needs_key {
            AppState::ApiKeyInput { input: String::new(), cursor: 0, error: None }
        } else {
            AppState::Staging { branch: "unknown".to_owned() }
        };
        Pipeline { state, api_key, model, dry_run: args.dry_run, result: None }
    }

    /// The effects to start when the run begins: staging, when the pipeline
    /// starts in the staging state.
    pub fn startup_effects(&self) -> (effects: Vec<Effect>)
        ensures
            self@.state is Staging ==> effects.deep_view() == seq![EffectV::StartStaging],
            !(self@.state is Staging) ==> effects.deep_view() == Seq::<EffectV>::empty(),
    {
        let mut effects: Vec<Effect> = Vec::new();
        proof {
            assert(effects.deep_view() =~= Seq::<EffectV>::empty());
        }
        if matches!(self.state, AppState::Staging { .. }) {
            effects.push(Effect::StartStaging);
            proof {
                assert(effects.deep_view() =~= seq![EffectV::StartStaging]);
            }
        }
        effects
    }

    /// The failure shown when the provider idles or overruns its budget.
    pub fn timeout_message() -> (r: String)
        ensures
            r@ == timeout_message_spec(),
    {
        "Provider timed out while generating commit message. Press R to retry or K to re-enter API key.".to_owned()
    }

    /// Checks the generation timeouts against the injected clock and fails
    /// the run when one tripped, exactly as [`timeout_step_spec`] prescribes.
    pub fn check_timeout(&mut self, now_ms: u64) -> (effects: Vec<Effect>)
        ensures
            final(self)@ == timeout_step_spec(old(self)@, now_ms).pipeline,
            effects.deep_view() == timeout_step_spec(old(self)@, now_ms).effects,
    {
        let ghost pre = self@;
        let tripped: bool = match &self.state {
            AppState::Generating { generated, started_at_ms, .. } => generation_timed_out(
                *started_at_ms,
                now_ms,
                generated.as_str().unicode_len(),
            ),
            _ => false,
        };
        if tripped {
            let effects = self.fail_with(Self::timeout_message(), true);
            proof {
                assert(final(self)@ =~~= timeout_step_spec(pre, now_ms).pipeline);
                assert(effects.deep_view() =~= timeout_step_spec(pre, now_ms).effects);
            }
            effects
        } else {
            let effects: Vec<Effect> = Vec::new();
            proof {
                assert(final(self)@ =~~= timeout_step_spec(pre, now_ms).pipeline);
                assert(effects.deep_view() =~= timeout_step_spec(pre, now_ms).effects);
            }
            effects
        }
    }

    /// Folds the outcome of the rollback into the failed state: when the
    /// rollback itself failed, both errors are reported together and the
    /// failure is no longer retryable.
    pub fn apply_rollback_outcome(&mut self, rollback_error: Option<String>)
        ensures
            final(self)@ == rollback_outcome_spec(old(self)@, rollback_error.deep_view()),
    {
        let ghost pre = self@;
        match rollback_error {
            None => {
                proof {
                    assert(final(self)@ =~~= rollback_outcome_spec(pre, None));
                }
            },
            Some(e) => {
                let next: Option<AppState> = match &self.state {
                    AppState::Error { message, .. } => {
                        let mut m = message.clone();
                        m.append("\nAlso failed to unstage changes: ");
                        m.append(e.as_str());
                        Some(AppState::Error { message: m, retryable: false })
                    },
                    _ => None,
                };
                match next {
                    Some(st) => {
                        self.state = st;
                    },
                    None => {},
                }
                proof {
                    assert(final(self)@ =~~= rollback_outcome_spec(pre, Some(e@)));
                }
            },
        }
    }

    /// Whether the terminal display period after a finished run has passed.
    pub fn done_grace_expired(&self, now_ms: u64) -> (r: bool)
        ensures
            r == done_grace_spec(self@.state, now_ms),
    {
        match &self.state {
            AppState::Done { done_at_ms, .. } => now_ms >= *done_at_ms && now_ms - *done_at_ms
                >= 3000,
            _ => false,
        }
    }

    /// The retained snapshot for display after the run, if any.
    pub fn get_result(&self) -> (r: &Option<AppResult>)
        ensures
            r.deep_view() == self@.result,
    {
        &self.result
    }
}

/// The failure shown when the provider idles or overruns its budget.
pub open spec fn timeout_message_spec() -> Seq<char> {
    "Provider timed out while generating commit message. Press R to retry or K to re-enter API key."@
}

/// The timeout check as a transition: a generation that idled past the idle
/// timeout or ran past the overall timeout fails retryably, with rollback.
pub open spec fn timeout_step_spec(p: PipelineV, now_ms: u64) -> StepV {
    match p.state {
        AppStateV::Generating { generated, started_at_ms, .. } => if timed_out_spec(
            started_at_ms,
            now_ms,
            generated.len() > 0,
        ) {
            fail_spec(p, timeout_message_spec(), true)
        } else {
            StepV { pipeline: p, effects: Seq::<EffectV>::empty() }
        },
        _ => StepV { pipeline: p, effects: Seq::<EffectV>::empty() },
    }
}

/// How the rollback outcome folds into the failed state.
pub open spec fn rollback_outcome_spec(p: PipelineV, rollback_error: Option<Seq<char>>) -> PipelineV {
    match p.state {
        AppStateV::Error { message, retryable } => match rollback_error {
            Some(e) => PipelineV {
                state: AppStateV::Error {
                    message: message + "\nAlso failed to unstage changes: "@ + e,
                    retryable: false,
                },
                ..p
            },
            None => p,
        },
        _ => p,
    }
}

/// Whether the short display period after a finished run has passed.
pub open spec fn done_grace_spec(s: AppStateV, now_ms: u64) -> bool {
    match s {
        AppStateV::Done { done_at_ms, .. } => now_ms >= done_at_ms && now_ms - done_at_ms >= 3000,
        _ => false,
    }
}

/// Law: any worker failure reported while the run is in a staged stage
/// lands in the failed state, requests exactly one rollback, and is
/// retryable exactly for generation failures.
pub proof fn lemma_failure_triggers_rollback(p: PipelineV, e: AppEventV, now_ms: u64)
    requires
        must_unstage(p.state),
        e is StagingFailed || e is GenerationFailed || e is CommitFailed,
    ensures
        step_spec(p, e, now_ms).pipeline.state is Error,
        step_spec(p, e, now_ms).effects == seq![EffectV::Unstage],
        step_spec(p, e, now_ms).pipeline.state->Error_retryable == (e is GenerationFailed),
{
}

/// Law: a generation timeout fails the run retryably and requests the
/// rollback.
pub proof fn lemma_timeout_fails_retryably(p: PipelineV, now_ms: u64)
    requires
        p.state is Generating,
        timed_out_spec(p.state->Generating_started_at_ms, now_ms, p.state->Generating_generated.len() > 0),
    ensures
        timeout_step_spec(p, now_ms).pipeline.state is Error,
        timeout_step_spec(p, now_ms).pipeline.state->Error_retryable == true,
        timeout_step_spec(p, now_ms).effects == seq![EffectV::Unstage],
{
}

/// Law: in a dry run, a completed generation ends the pipeline without a
/// commit effect.
pub proof fn lemma_dry_run_never_commits(p: PipelineV, raw: Seq<char>, now_ms: u64)
    requires
        p.dry_run,
        p.state is Generating,
    ensures
        step_spec(p, AppEventV::GenerationComplete(raw), now_ms).pipeline.state is Done,
        step_spec(p, AppEventV::GenerationComplete(raw), now_ms).effects == Seq::<EffectV>::empty(),
{
}

/// Law: in a live run, a completed generation moves to committing and asks
/// for exactly one commit, carrying the sanitized title and body.
pub proof fn lemma_generation_complete_commits(p: PipelineV, raw: Seq<char>, now_ms: u64)
    requires
        !p.dry_run,
        p.state is Generating,
    ensures
        step_spec(p, AppEventV::GenerationComplete(raw), now_ms).pipeline.state is Committing,
        step_spec(p, AppEventV::GenerationComplete(raw), now_ms).pipeline.state->Committing_message
            == full_message_spec(raw),
        step_spec(p, AppEventV::GenerationComplete(raw), now_ms).effects == seq![
            EffectV::StartCommit { title: title_spec(raw), body: body_spec(raw) },
        ],
{
}

/// Law: stream and commit events that arrive after their stage has moved on
/// change nothing and start nothing.
pub proof fn lemma_late_events_ignored(p: PipelineV, e: AppEventV, now_ms: u64)
    requires
        (!(p.state is Generating) && (e is GenerationChunk || e is GenerationComplete)) || (!(
        p.state is Committing) && e is CommitComplete),
    ensures
        step_spec(p, e, now_ms).pipeline == p,
        step_spec(p, e, now_ms).effects == Seq::<EffectV>::empty(),
{
    assert(step_spec(p, e, now_ms).pipeline =~~= p);
}

} // verus!
