//! The state of an interactive session: the menu of actions, the rolling
//! log, and what was loaded and reported last. Reading and writing files is
//! the caller's part; a session is told how each attempt ended.

use crate::analysis::{analyze, report_matches};
use crate::model::{opt_text, sample_input, sample_view, InputView, ReportView, VrmInput, VrmReport};
use crate::text::{decimal, decimal_string, join, joined, texts};
use vstd::prelude::*;
use vstd::string::StringExecFns;

verus! {

/// The most log lines that a session keeps.
pub const LOG_LIMIT: usize = 120;

/// The most log lines that are shown at once.
pub const VISIBLE_LOGS: usize = 20;

/// What the menu offers.
#[derive(Clone, Copy, Debug, PartialEq, Eq)]
pub enum Action {
    CheckDuplicateBoneNames,
    BuildDryRunPlan,
}

/// The title of an action as the menu shows it.
pub open spec fn action_title(action: Action) -> Seq<char> {
    match action {
        Action::CheckDuplicateBoneNames => "본 이름 중복 검사"@,
        Action::BuildDryRunPlan => "병합 드라이런 계획 생성"@,
    }
}

impl Action {
    /// The title of the action as the menu shows it.
    pub fn title(self) -> (out: &'static str)
        ensures
            out@ == action_title(self),
    {
        match self {
            Action::CheckDuplicateBoneNames => "본 이름 중복 검사",
            Action::BuildDryRunPlan => "병합 드라이런 계획 생성",
        }
    }
}

/// The last `n` of `logs`, or all of them where there are no more.
pub open spec fn last_n(logs: Seq<Seq<char>>, n: nat) -> Seq<Seq<char>> {
    if logs.len() > n {
        logs.subrange(logs.len() - n, logs.len() as int)
    } else {
        logs
    }
}

/// The first line of every log.
pub open spec fn start_line() -> Seq<char> {
    "vrm-tui 시작. 방향키/Enter로 실행, s로 저장, q로 종료"@
}

/// The line that names the input file.
pub open spec fn input_file_line(path: Seq<char>) -> Seq<char> {
    "입력 파일: "@ + path
}

/// The line that tells of a session without an input file.
pub open spec fn no_input_line() -> Seq<char> {
    "입력 파일이 없어 예시 데이터 모드로 동작합니다."@
}

/// The line that names the output file.
pub open spec fn output_file_line(path: Seq<char>) -> Seq<char> {
    "출력 파일: "@ + path
}

/// The line that tells how much was loaded.
pub open spec fn loaded_line(input: InputView) -> Seq<char> {
    "입력 로드 완료: avatar_bones="@ + decimal(input.avatar_bones.len()) + ", clothing_bones="@
        + decimal(input.clothing_bones.len()) + ", clothing_smrs="@ + decimal(
        input.clothing_smrs.len(),
    )
}

/// The line that tells why loading failed.
pub open spec fn load_failed_line(reason: Seq<char>) -> Seq<char> {
    "입력 로드 실패: "@ + reason
}

/// The line that opens a run.
pub open spec fn run_line(action: Action) -> Seq<char> {
    "실행: "@ + action_title(action)
}

/// The line with the number of duplicate names in the avatar.
pub open spec fn avatar_duplicates_line(count: nat) -> Seq<char> {
    "중복(아바타): "@ + decimal(count)
}

/// The line with the number of duplicate names in the clothing.
pub open spec fn clothing_duplicates_line(count: nat) -> Seq<char> {
    "중복(의상): "@ + decimal(count)
}

/// The line with the numbers of bones and meshes to move.
pub open spec fn moved_line(bones: nat, smrs: nat) -> Seq<char> {
    "예상 이동 본/SMR: "@ + decimal(bones) + "/"@ + decimal(smrs)
}

/// The line with the numbers of bones and meshes to rename.
pub open spec fn renamed_line(bones: nat, smrs: nat) -> Seq<char> {
    "예상 이름 변경 본/SMR: "@ + decimal(bones) + "/"@ + decimal(smrs)
}

/// The line with all warnings of a report.
pub open spec fn warnings_line(warnings: Seq<Seq<char>>) -> Seq<char> {
    "경고: "@ + joined(warnings, " | "@)
}

/// The line that tells that there is no report to save yet.
pub open spec fn nothing_to_save_line() -> Seq<char> {
    "저장할 결과가 없습니다. 먼저 작업을 실행하세요."@
}

/// The line that tells that there is no path to save to.
pub open spec fn no_output_path_line() -> Seq<char> {
    "출력 경로가 없어 저장을 건너뜁니다."@
}

/// The line that tells where the report was saved.
pub open spec fn saved_line(path: Seq<char>) -> Seq<char> {
    "결과 저장 완료: "@ + path
}

/// The line that tells why saving failed.
pub open spec fn save_failed_line(reason: Seq<char>) -> Seq<char> {
    "결과 저장 실패: "@ + reason
}

/// The lines that a run logs about its report: four counts, then the
/// warnings on one line where there are any.
pub open spec fn report_lines(report: ReportView) -> Seq<Seq<char>> {
    seq![
        avatar_duplicates_line(report.duplicate_avatar_bone_names.len()),
        clothing_duplicates_line(report.duplicate_clothing_bone_names.len()),
        moved_line(report.estimated_moved_bones, report.estimated_moved_smrs),
        renamed_line(report.estimated_renamed_bones, report.estimated_renamed_smrs),
    ] + (if report.warnings.len() > 0 {
        seq![warnings_line(report.warnings)]
    } else {
        seq![]
    })
}

/// A session.
#[derive(Debug, Clone)]
pub struct App {
    pub actions: Vec<Action>,
    pub selected: usize,
    pub logs: Vec<String>,
    pub input_path: Option<String>,
    pub output_path: Option<String>,
    pub input_data: Option<VrmInput>,
    pub latest_report: Option<VrmReport>,
}

/// A session as a mathematical value.
pub struct AppView {
    pub actions: Seq<Action>,
    pub selected: nat,
    pub logs: Seq<Seq<char>>,
    pub input_path: Option<Seq<char>>,
    pub output_path: Option<Seq<char>>,
    pub input_data: Option<InputView>,
    pub latest_report: Option<ReportView>,
}

impl View for App {
    type V = AppView;

    open spec fn view(&self) -> AppView {
        AppView {
            actions: self.actions@,
            selected: self.selected as nat,
            logs: texts(self.logs@),
            input_path: opt_text(self.input_path),
            output_path: opt_text(self.output_path),
            input_data: match self.input_data {
                Some(data) => Some(data@),
                None => None,
            },
            latest_report: match self.latest_report {
                Some(report) => Some(report@),
                None => None,
            },
        }
    }
}

/// How an attempt to read the input ended, if one was made.
pub open spec fn loaded_view(loaded: Option<Result<VrmInput, String>>) -> Option<
    Result<InputView, Seq<char>>,
> {
    match loaded {
        None => None,
        Some(Ok(data)) => Some(Ok(data@)),
        Some(Err(reason)) => Some(Err(reason@)),
    }
}

/// How an attempt to write the report ended, if one was made.
pub open spec fn written_view(written: Option<Result<(), String>>) -> Option<
    Result<(), Seq<char>>,
> {
    match written {
        None => None,
        Some(Ok(_)) => Some(Ok(())),
        Some(Err(reason)) => Some(Err(reason@)),
    }
}

/// The session as it starts.
pub open spec fn initial_state(
    input_path: Option<Seq<char>>,
    output_path: Option<Seq<char>>,
) -> AppView {
    AppView {
        actions: seq![Action::CheckDuplicateBoneNames, Action::BuildDryRunPlan],
        selected: 0,
        logs: seq![
            start_line(),
            match input_path {
                Some(path) => input_file_line(path),
                None => no_input_line(),
            },
        ] + (match output_path {
            Some(path) => seq![output_file_line(path)],
            None => seq![],
        }),
        input_path,
        output_path,
        input_data: None,
        latest_report: None,
    }
}

/// Whether the session still has an input file to read: a path is set and
/// nothing was loaded yet.
pub open spec fn wants_input(s: AppView) -> bool {
    s.input_data is None && s.input_path is Some
}

/// The session after it was told how reading the input ended. Where no
/// input was wanted, or none was read, nothing changes.
pub open spec fn after_load(s: AppView, loaded: Option<Result<InputView, Seq<char>>>) -> AppView {
    if !wants_input(s) {
        s
    } else {
        match loaded {
            None => s,
            Some(Ok(data)) => AppView {
                logs: s.logs.push(loaded_line(data)),
                input_data: Some(data),
                ..s
            },
            Some(Err(reason)) => AppView { logs: s.logs.push(load_failed_line(reason)), ..s },
        }
    }
}

/// What a run analyzes: the loaded input, or the built-in example where
/// none is loaded.
pub open spec fn analyzed_input(s: AppView) -> InputView {
    match s.input_data {
        Some(data) => data,
        None => sample_view(),
    }
}

/// The session after a run that gave `report`.
pub open spec fn after_run(s: AppView, report: ReportView) -> AppView
    recommends
        s.selected < s.actions.len(),
{
    AppView {
        logs: last_n(
            s.logs.push(run_line(s.actions[s.selected as int])) + report_lines(report),
            LOG_LIMIT as nat,
        ),
        latest_report: Some(report),
        ..s
    }
}

/// The line that saving logs, if any.
pub open spec fn save_line(s: AppView, written: Option<Result<(), Seq<char>>>) -> Option<
    Seq<char>,
> {
    if s.latest_report is None {
        Some(nothing_to_save_line())
    } else if s.output_path is None {
        Some(no_output_path_line())
    } else {
        match written {
            None => None,
            Some(Ok(_)) => Some(saved_line(s.output_path->0)),
            Some(Err(reason)) => Some(save_failed_line(reason)),
        }
    }
}

/// The session after it was told how writing the report ended.
pub open spec fn after_save(s: AppView, written: Option<Result<(), Seq<char>>>) -> AppView {
    AppView {
        logs: last_n(
            match save_line(s, written) {
                Some(line) => s.logs.push(line),
                None => s.logs,
            },
            LOG_LIMIT as nat,
        ),
        ..s
    }
}

/// One line of the menu: a marker for the selected action, then the title.
pub open spec fn menu_line(action: Action, chosen: bool) -> Seq<char> {
    (if chosen {
        "> "@
    } else {
        "  "@
    }) + action_title(action)
}

/// The status line of the session.
pub open spec fn status_of(s: AppView) -> Seq<char> {
    "VtuberVRMTool Rust TUI | q: 종료, ↑/↓: 이동, Enter: 실행, s: 저장 | 입력: "@ + (match s.input_path {
        Some(path) => path,
        None => "예시 데이터"@,
    })
}

fn labelled(label: &str, value: &str) -> (out: String)
    ensures
        out@ == label@ + value@,
{
    String::from_str(label).concat(value)
}

fn labelled_count(label: &str, count: usize) -> (out: String)
    ensures
        out@ == label@ + decimal(count as nat),
{
    let digits = decimal_string(count);
    String::from_str(label).concat(digits.as_str())
}

fn labelled_pair(label: &str, first: usize, second: usize) -> (out: String)
    ensures
        out@ == label@ + decimal(first as nat) + "/"@ + decimal(second as nat),
{
    let mut out = labelled_count(label, first);
    out.append("/");
    let digits = decimal_string(second);
    out.append(digits.as_str());
    out
}

fn loaded_text(data: &VrmInput) -> (out: String)
    ensures
        out@ == loaded_line(data@),
{
    let mut out = labelled_count("입력 로드 완료: avatar_bones=", data.avatar_bones.len());
    out.append(", clothing_bones=");
    let clothing = decimal_string(data.clothing_bones.len());
    out.append(clothing.as_str());
    out.append(", clothing_smrs=");
    let smrs = decimal_string(data.clothing_smrs.len());
    out.append(smrs.as_str());
    out
}

fn tail_of(logs: &Vec<String>, n: usize) -> (out: Vec<String>)
    ensures
        texts(out@) == last_n(texts(logs@), n as nat),
{
    let len = logs.len();
    let from: usize = if len > n {
        len - n
    } else {
        0
    };
    let mut out: Vec<String> = Vec::new();
    let mut i: usize = from;
    while i < len
        invariant
            len == logs.len(),
            from <= i <= len,
            out@.len() == i - from,
            forall|k: int| 0 <= k < out@.len() ==> out@[k]@ == logs@[from + k]@,
        decreases len - i,
    {
        out.push(logs[i].clone());
        i += 1;
    }
    assert(texts(out@) =~= last_n(texts(logs@), n as nat));
    out
}

impl App {
    /// The invariant of a session: the menu is not empty and the selection
    /// points into it.
    pub open spec fn wf(&self) -> bool {
        self.selected < self.actions.len()
    }

    /// Starts a session on the given paths.
    pub fn new(input_path: Option<String>, output_path: Option<String>) -> (out: App)
        ensures
            out.wf(),
            out@ == initial_state(opt_text(input_path), opt_text(output_path)),
    {
        let mut logs: Vec<String> = Vec::new();
        logs.push(String::from_str("vrm-tui 시작. 방향키/Enter로 실행, s로 저장, q로 종료"));
        match &input_path {
            Some(path) => {
                logs.push(labelled("입력 파일: ", path.as_str()));
            },
            None => {
                logs.push(String::from_str("입력 파일이 없어 예시 데이터 모드로 동작합니다."));
            },
        }
        match &output_path {
            Some(path) => {
                logs.push(labelled("출력 파일: ", path.as_str()));
            },
            None => {},
        }
        let mut actions: Vec<Action> = Vec::new();
        actions.push(Action::CheckDuplicateBoneNames);
        actions.push(Action::BuildDryRunPlan);
        let out = App {
            actions,
            selected: 0,
            logs,
            input_path,
            output_path,
            input_data: None,
            latest_report: None,
        };
        proof {
            let want = initial_state(opt_text(input_path), opt_text(output_path));
            assert(out@.logs =~= want.logs);
            assert(out@.actions =~= want.actions);
        }
        out
    }

    /// The path of the input file that is still to be read, if there is one.
    pub fn input_to_load(&self) -> (out: Option<&String>)
        ensures
            out is Some <==> wants_input(self@),
            out is Some ==> self.input_path == Some(*out->0),
    {
        if self.input_data.is_some() {
            return None;
        }
        match &self.input_path {
            Some(path) => Some(path),
            None => None,
        }
    }

    /// Takes in how reading the input ended. Where an input was wanted, a
    /// read that succeeded is kept and logged, and one that failed is
    /// logged with its reason.
    pub fn load_input_if_needed(&mut self, loaded: Option<Result<VrmInput, String>>)
        ensures
            final(self)@ == after_load(old(self)@, loaded_view(loaded)),
            old(self).wf() ==> final(self).wf(),
    {
        if self.input_data.is_some() {
            return;
        }
        if self.input_path.is_none() {
            return;
        }
        match loaded {
            None => {},
            Some(Ok(data)) => {
                let line = loaded_text(&data);
                self.logs.push(line);
                self.input_data = Some(data);
                assert(self@.logs =~= old(self)@.logs.push(loaded_line(data@)));
            },
            Some(Err(reason)) => {
                self.logs.push(labelled("입력 로드 실패: ", reason.as_str()));
                assert(self@.logs =~= old(self)@.logs.push(load_failed_line(reason@)));
            },
        }
    }

    /// Moves the selection down by one, from the last action to the first.
    pub fn next(&mut self)
        requires
            old(self).wf(),
        ensures
            final(self).wf(),
            final(self).selected == (old(self).selected + 1) % (old(self).actions.len() as int),
            final(self)@ == (AppView { selected: final(self).selected as nat, ..old(self)@ }),
    {
        self.selected = (self.selected + 1) % self.actions.len();
    }

    /// Moves the selection up by one, from the first action to the last.
    pub fn previous(&mut self)
        requires
            old(self).wf(),
        ensures
            final(self).wf(),
            final(self).selected == (if old(self).selected == 0 {
                old(self).actions.len() - 1
            } else {
                old(self).selected - 1
            }),
            final(self)@ == (AppView { selected: final(self).selected as nat, ..old(self)@ }),
    {
        self.selected = if self.selected == 0 {
            self.actions.len() - 1
        } else {
            self.selected - 1
        };
    }

    /// Drops the oldest log lines beyond the limit.
    pub fn trim_logs(&mut self)
        ensures
            final(self)@ == (AppView {
                logs: last_n(old(self)@.logs, LOG_LIMIT as nat),
                ..old(self)@
            }),
            old(self).wf() ==> final(self).wf(),
    {
        if self.logs.len() > LOG_LIMIT {
            let drain = self.logs.len() - LOG_LIMIT;
            let kept = self.logs.split_off(drain);
            self.logs = kept;
            assert(self@.logs =~= last_n(old(self)@.logs, LOG_LIMIT as nat));
        }
    }

    /// Runs the selected action: takes in how reading the input ended,
    /// analyzes the loaded input (the built-in example where none is
    /// loaded), logs the outcome and keeps the report.
    pub fn run_selected(&mut self, loaded: Option<Result<VrmInput, String>>)
        requires
            old(self).wf(),
        ensures
            final(self).wf(),
            final(self)@.latest_report is Some,
            report_matches(
                analyzed_input(after_load(old(self)@, loaded_view(loaded))),
                final(self)@.latest_report->0,
            ),
            final(self)@ == after_run(
                after_load(old(self)@, loaded_view(loaded)),
                final(self)@.latest_report->0,
            ),
    {
        self.load_input_if_needed(loaded);
        let ghost ready = self@;
        let action = self.actions[self.selected];
        self.logs.push(labelled("실행: ", action.title()));
        let report = match &self.input_data {
            Some(data) => analyze(data),
            None => {
                let sample = sample_input();
                analyze(&sample)
            },
        };
        self.logs.push(
            labelled_count("중복(아바타): ", report.duplicate_avatar_bone_names.len()),
        );
        self.logs.push(
            labelled_count("중복(의상): ", report.duplicate_clothing_bone_names.len()),
        );
        self.logs.push(
            labelled_pair(
                "예상 이동 본/SMR: ",
                report.estimated_moved_bones,
                report.estimated_moved_smrs,
            ),
        );
        self.logs.push(
            labelled_pair(
                "예상 이름 변경 본/SMR: ",
                report.estimated_renamed_bones,
                report.estimated_renamed_smrs,
            ),
        );
        if report.warnings.len() > 0 {
            let all = join(&report.warnings, " | ");
            self.logs.push(labelled("경고: ", all.as_str()));
        }
        assert(self@.logs =~= ready.logs.push(run_line(ready.actions[ready.selected as int]))
            + report_lines(report@));
        self.latest_report = Some(report);
        self.trim_logs();
    }

    /// The path and the report that are to be written, where both exist.
    pub fn save_target(&self) -> (out: Option<(&String, &VrmReport)>)
        ensures
            out is Some <==> self.latest_report is Some && self.output_path is Some,
            out is Some ==> self.output_path == Some(*(out->0).0) && self.latest_report == Some(
                *(out->0).1,
            ),
    {
        match (&self.output_path, &self.latest_report) {
            (Some(path), Some(report)) => Some((path, report)),
            _ => None,
        }
    }

    /// Takes in how writing the report ended. Without a report, or
    /// without an output path, that is logged; otherwise the outcome of the
    /// write is, if one was made.
    pub fn save_report(&mut self, written: Option<Result<(), String>>)
        ensures
            final(self)@ == after_save(old(self)@, written_view(written)),
            old(self).wf() ==> final(self).wf(),
    {
        let ghost line = save_line(self@, written_view(written));
        if self.latest_report.is_none() {
            self.logs.push(String::from_str("저장할 결과가 없습니다. 먼저 작업을 실행하세요."));
            assert(self@.logs =~= old(self)@.logs.push(line->0));
        } else {
            let text = match &self.output_path {
                None => Some(String::from_str("출력 경로가 없어 저장을 건너뜁니다.")),
                Some(path) => match &written {
                    None => None,
                    Some(Ok(_)) => Some(labelled("결과 저장 완료: ", path.as_str())),
                    Some(Err(reason)) => Some(labelled("결과 저장 실패: ", reason.as_str())),
                },
            };
            match text {
                Some(t) => {
                    self.logs.push(t);
                    assert(self@.logs =~= old(self)@.logs.push(line->0));
                },
                None => {},
            }
        }
        self.trim_logs();
    }

    /// The lines of the menu, the selected one marked.
    pub fn menu_lines(&self) -> (out: Vec<String>)
        ensures
            out@.len() == self.actions@.len(),
            forall|i: int|
                0 <= i < out@.len() ==> out@[i]@ == menu_line(
                    self.actions@[i],
                    i == self.selected,
                ),
    {
        let mut out: Vec<String> = Vec::new();
        let mut i: usize = 0;
        while i < self.actions.len()
            invariant
                i <= self.actions.len(),
                out@.len() == i,
                forall|k: int|
                    0 <= k < i ==> out@[k]@ == menu_line(self.actions@[k], k == self.selected),
            decreases self.actions.len() - i,
        {
            let prefix = if i == self.selected {
                "> "
            } else {
                "  "
            };
            out.push(labelled(prefix, self.actions[i].title()));
            i += 1;
        }
        out
    }

    /// The log lines that are shown: the newest, oldest first.
    pub fn recent_logs(&self) -> (out: Vec<String>)
        ensures
            texts(out@) == last_n(self@.logs, VISIBLE_LOGS as nat),
    {
        tail_of(&self.logs, VISIBLE_LOGS)
    }

    /// The status line.
    pub fn status_text(&self) -> (out: String)
        ensures
            out@ == status_of(self@),
    {
        let shown = match &self.input_path {
            Some(path) => path.as_str(),
            None => "예시 데이터",
        };
        labelled(
            "VtuberVRMTool Rust TUI | q: 종료, ↑/↓: 이동, Enter: 실행, s: 저장 | 입력: ",
            shown,
        )
    }
}

} // verus!
