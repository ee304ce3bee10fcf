//! Installing and updating the toolchain: the components, the settings taken
//! from the user, the commands each run is made of, and the run itself.
use vstd::prelude::*;
use crate::prompt::{lowered, same_text, yes_no, Prompt, PromptError};
use crate::process::{
    check_if_installed, dependency_report, report_fits, run_cmd, run_result, texts, CommandView,
    DependencyReport, ExecutionError, InvocationOutcome, InvocationSpec, OutputMode, RunReport,
};

verus! {

/// The compiler's repository.
pub const MCLANGC_GIT: &'static str = "https://github.com/mc-lang/mclangc.git";

/// The installer's own repository.
pub const MCLANG_UP_GIT: &'static str = "https://github.com/mc-lang/mclang-up.git";

/// The package manager's repository.
pub const MCLANG_PKM_GIT: &'static str = "https://github.com/mc-lang/mclang-pkm.git";

/// The core library's repository.
pub const LIBMC_GIT: &'static str = "https://github.com/mc-lang/libmc.git";

/// The options of a run. `component` names the part to act on; every run acts
/// on all known components whatever it holds.
#[derive(Debug, Clone)]
pub struct Args {
    pub update: bool,
    pub install: bool,
    pub verbose: bool,
    pub component: String,
}

/// What a run is asked to do.
#[derive(Debug, Clone, Copy, PartialEq, Eq, Structural)]
pub enum Command {
    Install,
    Update,
    Nothing,
}

impl Args {
    /// What the options ask for: install wins over update.
    pub fn command(&self) -> (r: Command)
        ensures
            self.install ==> r == Command::Install,
            !self.install && self.update ==> r == Command::Update,
            !self.install && !self.update ==> r == Command::Nothing,
    {
        if self.install {
            Command::Install
        } else if self.update {
            Command::Update
        } else {
            Command::Nothing
        }
    }
}

/// A component in plain values.
pub struct ComponentView {
    pub name: Seq<char>,
    pub url: Seq<char>,
    pub builds: bool,
}

/// One repository of the toolchain: cloned into `components/<name>`, and
/// built there where `builds`, which yields the binary `<name>`.
#[derive(Debug, Clone)]
pub struct Component {
    pub name: String,
    pub url: String,
    pub builds: bool,
}

impl View for Component {
    type V = ComponentView;

    open spec fn view(&self) -> ComponentView {
        ComponentView { name: self.name@, url: self.url@, builds: self.builds }
    }
}

/// The views of a list of components.
pub open spec fn component_views(cs: Seq<Component>) -> Seq<ComponentView> {
    cs.map_values(|c: Component| c@)
}

/// The known components, in the order in which they are handled.
pub open spec fn known_components() -> Seq<ComponentView> {
    seq![
        ComponentView { name: "mclangc"@, url: MCLANGC_GIT@, builds: true },
        ComponentView { name: "mclang-up"@, url: MCLANG_UP_GIT@, builds: true },
        ComponentView { name: "mclang-pkm"@, url: MCLANG_PKM_GIT@, builds: true },
        ComponentView { name: "libmc"@, url: LIBMC_GIT@, builds: false },
    ]
}

fn component(name: &str, url: &str, builds: bool) -> (r: Component)
    ensures
        r@ == (ComponentView { name: name@, url: url@, builds }),
{
    Component { name: String::from_str(name), url: String::from_str(url), builds }
}

/// The known components, in the order in which they are handled.
pub fn components() -> (r: Vec<Component>)
    ensures
        component_views(r@) == known_components(),
{
    let mut r: Vec<Component> = Vec::new();
    r.push(component("mclangc", MCLANGC_GIT, true));
    r.push(component("mclang-up", MCLANG_UP_GIT, true));
    r.push(component("mclang-pkm", MCLANG_PKM_GIT, true));
    r.push(component("libmc", LIBMC_GIT, false));
    assert(component_views(r@) =~= known_components());
    r
}

/// Why the settings of a run could not be had.
#[derive(Debug, Clone, Copy, PartialEq, Eq, Structural)]
pub enum InstallError {
    /// The user declined to go on.
    UserAborted,
    /// An answer outside the accepted ones.
    InvalidInput,
}

/// The branches that can be installed.
pub open spec fn accepted_branch(b: Seq<char>) -> bool {
    b == "dev"@ || b == "stable"@ || b == "main-v2"@
}

/// The branch that an answer asks for: `stable` where it is empty.
pub open spec fn branch_of(answer: Seq<char>) -> Seq<char> {
    if answer.len() == 0 {
        "stable"@
    } else {
        answer
    }
}

/// The install root that an answer asks for: `.mclang` in the home directory
/// where it is empty.
pub open spec fn location_of(answer: Seq<char>, home: Seq<char>) -> Seq<char> {
    if answer.len() == 0 {
        home + "/.mclang"@
    } else {
        answer
    }
}

/// The install root: the answer, or `.mclang` in the home directory.
pub fn get_install_location(answer: &str, home: &str) -> (r: String)
    ensures
        r@ == location_of(answer@, home@),
{
    let mut fallback = String::from_str(home);
    fallback.append("/.mclang");
    Prompt::default(answer, fallback.as_str())
}

/// The branch to install: the answer, or `stable`; refused unless it is one
/// of `dev`, `stable` and `main-v2`.
pub fn get_install_branch(answer: &str) -> (r: Result<String, InstallError>)
    ensures
        accepted_branch(branch_of(answer@)) ==> r is Ok && r->Ok_0@ == branch_of(answer@),
        !accepted_branch(branch_of(answer@)) ==> r == Err::<String, InstallError>(
            InstallError::InvalidInput,
        ),
{
    let b = Prompt::default(answer, "stable");
    if same_text(b.as_str(), "dev") || same_text(b.as_str(), "stable") || same_text(
        b.as_str(),
        "main-v2",
    ) {
        Ok(b)
    } else {
        Err(InstallError::InvalidInput)
    }
}

/// What an answer to the question whether to go on means, no being the
/// default.
pub open spec fn confirm_of(lowered: Seq<char>) -> Result<(), InstallError> {
    match yes_no(lowered, Some(false)) {
        Some(true) => Ok(()),
        Some(false) => Err(InstallError::UserAborted),
        None => Err(InstallError::InvalidInput),
    }
}

/// Whether to go on, from the answer to a question whose default is no.
pub fn confirm(answer: &str) -> (r: Result<(), InstallError>)
    ensures
        r == confirm_of(lowered(answer@)),
{
    match Prompt::bool(answer, Some(false)) {
        Ok(true) => Ok(()),
        Ok(false) => Err(InstallError::UserAborted),
        Err(PromptError::UnknownAnswer) => Err(InstallError::InvalidInput),
    }
}

/// The settings of a run, resolved from the user's answers.
#[derive(Debug, Clone)]
pub struct InstallConfig {
    pub root: String,
    pub branch: String,
    pub verbose: bool,
}

impl InstallConfig {
    /// A branch that can be installed.
    pub open spec fn wf(&self) -> bool {
        accepted_branch(self.branch@)
    }

    /// The settings from the answers for the install root and the branch.
    pub fn resolve(location: &str, home: &str, branch: &str, verbose: bool) -> (r: Result<
        InstallConfig,
        InstallError,
    >)
        ensures
            accepted_branch(branch_of(branch@)) ==> r is Ok && r->Ok_0.wf() && r->Ok_0.root@
                == location_of(location@, home@) && r->Ok_0.branch@ == branch_of(branch@)
                && r->Ok_0.verbose == verbose,
            !accepted_branch(branch_of(branch@)) ==> r == Err::<InstallConfig, InstallError>(
                InstallError::InvalidInput,
            ),
    {
        let root = get_install_location(location, home);
        match get_install_branch(branch) {
            Ok(b) => Ok(InstallConfig { root, branch: b, verbose }),
            Err(e) => Err(e),
        }
    }
}

/// Where the output of commands goes: to the terminal in verbose mode.
pub open spec fn mode_of(verbose: bool) -> OutputMode {
    if verbose {
        OutputMode::Inherit
    } else {
        OutputMode::Capture
    }
}

/// A step of a run in plain values.
pub enum StepView {
    Check(Seq<char>),
    Run(CommandView),
}

/// A step of a run: an advisory check that a program can be started, or a
/// command that must succeed.
#[derive(Debug, Clone)]
pub enum Step {
    Check(String),
    Run(InvocationSpec),
}

impl View for Step {
    type V = StepView;

    open spec fn view(&self) -> StepView {
        match self {
            Step::Check(p) => StepView::Check(p@),
            Step::Run(c) => StepView::Run(c@),
        }
    }
}

/// The views of a list of steps.
pub open spec fn step_views(s: Seq<Step>) -> Seq<StepView> {
    s.map_values(|x: Step| x@)
}

/// The step that runs a command.
pub open spec fn run_view(program: Seq<char>, args: Seq<Seq<char>>, cwd: Seq<char>, mode: OutputMode) -> StepView {
    StepView::Run(CommandView { program, args, cwd, mode })
}

/// The directory that holds the cloned components.
pub open spec fn components_dir(root: Seq<char>) -> Seq<char> {
    root + "/components"@
}

/// The directory of one component.
pub open spec fn component_dir(root: Seq<char>, name: Seq<char>) -> Seq<char> {
    root + "/components/"@ + name
}

/// The steps for one component: a fresh clone of the branch (or a pull of it
/// into the existing clone), then a release build where it builds.
pub open spec fn component_steps(
    root: Seq<char>,
    branch: Seq<char>,
    c: ComponentView,
    mode: OutputMode,
    fresh: bool,
) -> Seq<StepView> {
    let fetch = if fresh {
        run_view("git"@, seq!["clone"@, "-b"@, branch, c.url], components_dir(root), mode)
    } else {
        run_view("git"@, seq!["pull"@, "origin"@, branch], component_dir(root, c.name), mode)
    };
    let build = run_view("cargo"@, seq!["build"@, "--release"@], component_dir(root, c.name), mode);
    if c.builds {
        seq![fetch, build]
    } else {
        seq![fetch]
    }
}

/// The steps for each component in turn.
pub open spec fn all_component_steps(
    root: Seq<char>,
    branch: Seq<char>,
    cs: Seq<ComponentView>,
    mode: OutputMode,
    fresh: bool,
) -> Seq<StepView>
    decreases cs.len(),
{
    if cs.len() == 0 {
        seq![]
    } else {
        all_component_steps(root, branch, cs.drop_last(), mode, fresh) + component_steps(
            root,
            branch,
            cs.last(),
            mode,
            fresh,
        )
    }
}

/// The old clones to remove, relative to the components directory.
pub open spec fn old_clones(cs: Seq<ComponentView>) -> Seq<Seq<char>>
    decreases cs.len(),
{
    if cs.len() == 0 {
        seq![]
    } else {
        old_clones(cs.drop_last()).push("./"@ + cs.last().name)
    }
}

/// Where a component's binary is built, relative to the install root.
pub open spec fn binary_path(name: Seq<char>) -> Seq<char> {
    "./components/"@ + name + "/target/release/"@ + name
}

/// The built binaries, relative to the install root: one for each component
/// that builds.
pub open spec fn binaries(cs: Seq<ComponentView>) -> Seq<Seq<char>>
    decreases cs.len(),
{
    if cs.len() == 0 {
        seq![]
    } else if cs.last().builds {
        binaries(cs.drop_last()).push(binary_path(cs.last().name))
    } else {
        binaries(cs.drop_last())
    }
}

/// The advisory checks for the version control client and the build tool.
pub open spec fn dependency_checks() -> Seq<StepView> {
    seq![StepView::Check("git"@), StepView::Check("cargo"@)]
}

/// Making `bin` in the install root and copying the built binaries into it.
pub open spec fn staging_steps(root: Seq<char>, mode: OutputMode) -> Seq<StepView> {
    seq![
        run_view("mkdir"@, seq!["-p"@, "./bin"@], root, mode),
        run_view("cp"@, seq!["-f"@] + binaries(known_components()) + seq!["./bin"@], root, mode),
    ]
}

/// The steps of an install: checks; the install root and its components
/// directory made; old clones removed; each component cloned and built; the
/// binaries staged.
pub open spec fn install_steps(root: Seq<char>, branch: Seq<char>, mode: OutputMode) -> Seq<StepView> {
    dependency_checks() + seq![
        run_view("mkdir"@, seq!["-p"@, root], "./"@, mode),
        run_view("mkdir"@, seq!["-p"@, components_dir(root)], "./"@, mode),
        run_view("rm"@, seq!["-rf"@] + old_clones(known_components()), components_dir(root), mode),
    ] + all_component_steps(root, branch, known_components(), mode, true) + staging_steps(root, mode)
}

/// The steps of an update: checks; each component pulled and built; the
/// binaries staged.
pub open spec fn update_steps(root: Seq<char>, branch: Seq<char>, mode: OutputMode) -> Seq<StepView> {
    dependency_checks() + all_component_steps(root, branch, known_components(), mode, false)
        + staging_steps(root, mode)
}

fn cat(a: &str, b: &str) -> (r: String)
    ensures
        r@ == a@ + b@,
{
    let mut r = String::from_str(a);
    r.append(b);
    r
}

fn push_text(v: &mut Vec<String>, s: &str)
    ensures
        texts(final(v)@) == texts(old(v)@).push(s@),
{
    v.push(String::from_str(s));
    assert(texts(final(v)@) =~= texts(old(v)@).push(s@));
}

fn push_step(steps: &mut Vec<Step>, step: Step)
    ensures
        step_views(final(steps)@) == step_views(old(steps)@).push(step@),
{
    steps.push(step);
    assert(step_views(final(steps)@) =~= step_views(old(steps)@).push(step@));
}

fn run_step(program: &str, args: Vec<String>, cwd: String, mode: OutputMode) -> (r: Step)
    ensures
        r@ == run_view(program@, texts(args@), cwd@, mode),
{
    Step::Run(InvocationSpec { program: String::from_str(program), args, cwd, mode })
}

fn mode_for(verbose: bool) -> (r: OutputMode)
    ensures
        r == mode_of(verbose),
{
    if verbose {
        OutputMode::Inherit
    } else {
        OutputMode::Capture
    }
}

/// Appends the steps for one component: a fresh clone where `fresh`, else a
/// pull; then a build where it builds.
fn push_component_steps(steps: &mut Vec<Step>, config: &InstallConfig, c: &Component, fresh: bool)
    ensures
        step_views(final(steps)@) == step_views(old(steps)@) + component_steps(
            config.root@,
            config.branch@,
            c@,
            mode_of(config.verbose),
            fresh,
        ),
{
    let mode = mode_for(config.verbose);
    let root = config.root.as_str();
    let ghost start = step_views(steps@);
    let mut args: Vec<String> = Vec::new();
    assert(texts(args@) =~= seq![]);
    if fresh {
        push_text(&mut args, "clone");
        push_text(&mut args, "-b");
        push_text(&mut args, config.branch.as_str());
        push_text(&mut args, c.url.as_str());
        assert(texts(args@) =~= seq!["clone"@, "-b"@, config.branch@, c.url@]);
        push_step(steps, run_step("git", args, cat(root, "/components"), mode));
    } else {
        push_text(&mut args, "pull");
        push_text(&mut args, "origin");
        push_text(&mut args, config.branch.as_str());
        assert(texts(args@) =~= seq!["pull"@, "origin"@, config.branch@]);
        let dir = cat(cat(root, "/components/").as_str(), c.name.as_str());
        push_step(steps, run_step("git", args, dir, mode));
    }
    if c.builds {
        let mut build: Vec<String> = Vec::new();
        assert(texts(build@) =~= seq![]);
        push_text(&mut build, "build");
        push_text(&mut build, "--release");
        assert(texts(build@) =~= seq!["build"@, "--release"@]);
        let dir = cat(cat(root, "/components/").as_str(), c.name.as_str());
        push_step(steps, run_step("cargo", build, dir, mode));
    }
    assert(step_views(steps@) =~= start + component_steps(
        config.root@,
        config.branch@,
        c@,
        mode_of(config.verbose),
        fresh,
    ));
}

/// Appends the steps for each component in turn.
fn push_all_component_steps(
    steps: &mut Vec<Step>,
    config: &InstallConfig,
    cs: &Vec<Component>,
    fresh: bool,
)
    ensures
        step_views(final(steps)@) == step_views(old(steps)@) + all_component_steps(
            config.root@,
            config.branch@,
            component_views(cs@),
            mode_of(config.verbose),
            fresh,
        ),
{
    let ghost start = step_views(steps@);
    let ghost root = config.root@;
    let ghost branch = config.branch@;
    let ghost mode = mode_of(config.verbose);
    let mut i: usize = 0;
    while i < cs.len()
        invariant
            i <= cs@.len(),
            root == config.root@,
            branch == config.branch@,
            mode == mode_of(config.verbose),
            step_views(steps@) == start + all_component_steps(
                root,
                branch,
                component_views(cs@.subrange(0, i as int)),
                mode,
                fresh,
            ),
        decreases cs.len() - i,
    {
        let ghost done = component_views(cs@.subrange(0, i as int));
        let ghost grown = component_views(cs@.subrange(0, i + 1));
        assert(grown.drop_last() =~= done);
        assert(grown.last() == cs@[i as int]@);
        push_component_steps(steps, config, &cs[i], fresh);
        assert(step_views(steps@) =~= start + all_component_steps(root, branch, grown, mode, fresh));
        i = i + 1;
    }
    assert(cs@.subrange(0, cs@.len() as int) =~= cs@);
}

/// The old clones to remove, relative to the components directory.
fn old_clone_args(cs: &Vec<Component>, args: &mut Vec<String>)
    ensures
        texts(final(args)@) == texts(old(args)@) + old_clones(component_views(cs@)),
{
    let ghost start = texts(args@);
    let mut i: usize = 0;
    while i < cs.len()
        invariant
            i <= cs@.len(),
            texts(args@) == start + old_clones(component_views(cs@.subrange(0, i as int))),
        decreases cs.len() - i,
    {
        let ghost done = component_views(cs@.subrange(0, i as int));
        let ghost grown = component_views(cs@.subrange(0, i + 1));
        assert(grown.drop_last() =~= done);
        assert(grown.last() == cs@[i as int]@);
        push_text(args, cat("./", cs[i].name.as_str()).as_str());
        assert(texts(args@) =~= start + old_clones(grown));
        i = i + 1;
    }
    assert(cs@.subrange(0, cs@.len() as int) =~= cs@);
}

/// The built binaries, relative to the install root.
fn binary_args(cs: &Vec<Component>, args: &mut Vec<String>)
    ensures
        texts(final(args)@) == texts(old(args)@) + binaries(component_views(cs@)),
{
    let ghost start = texts(args@);
    let mut i: usize = 0;
    while i < cs.len()
        invariant
            i <= cs@.len(),
            texts(args@) == start + binaries(component_views(cs@.subrange(0, i as int))),
        decreases cs.len() - i,
    {
        let ghost done = component_views(cs@.subrange(0, i as int));
        let ghost grown = component_views(cs@.subrange(0, i + 1));
        assert(grown.drop_last() =~= done);
        assert(grown.last() == cs@[i as int]@);
        if cs[i].builds {
            let name = cs[i].name.as_str();
            let path = cat(cat(cat("./components/", name).as_str(), "/target/release/").as_str(), name);
            push_text(args, path.as_str());
        }
        assert(texts(args@) =~= start + binaries(grown));
        i = i + 1;
    }
    assert(cs@.subrange(0, cs@.len() as int) =~= cs@);
}

/// Appends the checks for the version control client and the build tool.
fn push_dependency_checks(steps: &mut Vec<Step>)
    ensures
        step_views(final(steps)@) == step_views(old(steps)@) + dependency_checks(),
{
    let ghost start = step_views(steps@);
    push_step(steps, Step::Check(String::from_str("git")));
    push_step(steps, Step::Check(String::from_str("cargo")));
    assert(step_views(steps@) =~= start + dependency_checks());
}

/// Appends the making of `bin` and the copy of the binaries into it.
fn push_staging_steps(steps: &mut Vec<Step>, config: &InstallConfig, cs: &Vec<Component>)
    requires
        component_views(cs@) == known_components(),
    ensures
        step_views(final(steps)@) == step_views(old(steps)@) + staging_steps(
            config.root@,
            mode_of(config.verbose),
        ),
{
    let ghost start = step_views(steps@);
    let mode = mode_for(config.verbose);
    let mut bin: Vec<String> = Vec::new();
    push_text(&mut bin, "-p");
    push_text(&mut bin, "./bin");
    assert(texts(bin@) =~= seq!["-p"@, "./bin"@]);
    push_step(steps, run_step("mkdir", bin, config.root.clone(), mode));
    let mut copy: Vec<String> = Vec::new();
    push_text(&mut copy, "-f");
    binary_args(cs, &mut copy);
    push_text(&mut copy, "./bin");
    assert(texts(copy@) =~= seq!["-f"@] + binaries(known_components()) + seq!["./bin"@]);
    push_step(steps, run_step("cp", copy, config.root.clone(), mode));
    assert(step_views(steps@) =~= start + staging_steps(config.root@, mode_of(config.verbose)));
}

/// The steps of an install with these settings.
pub fn install_plan(config: &InstallConfig) -> (r: Vec<Step>)
    ensures
        step_views(r@) == install_steps(config.root@, config.branch@, mode_of(config.verbose)),
{
    let cs = components();
    let mode = mode_for(config.verbose);
    let root = config.root.as_str();
    let mut steps: Vec<Step> = Vec::new();
    assert(step_views(steps@) =~= seq![]);
    push_dependency_checks(&mut steps);
    let mut make_root: Vec<String> = Vec::new();
    push_text(&mut make_root, "-p");
    push_text(&mut make_root, root);
    assert(texts(make_root@) =~= seq!["-p"@, root@]);
    push_step(&mut steps, run_step("mkdir", make_root, String::from_str("./"), mode));
    let mut make_dir: Vec<String> = Vec::new();
    push_text(&mut make_dir, "-p");
    push_text(&mut make_dir, cat(root, "/components").as_str());
    assert(texts(make_dir@) =~= seq!["-p"@, components_dir(root@)]);
    push_step(&mut steps, run_step("mkdir", make_dir, String::from_str("./"), mode));
    let mut remove: Vec<String> = Vec::new();
    push_text(&mut remove, "-rf");
    old_clone_args(&cs, &mut remove);
    assert(texts(remove@) =~= seq!["-rf"@] + old_clones(known_components()));
    push_step(&mut steps, run_step("rm", remove, cat(root, "/components"), mode));
    push_all_component_steps(&mut steps, config, &cs, true);
    push_staging_steps(&mut steps, config, &cs);
    assert(step_views(steps@) =~= install_steps(config.root@, config.branch@, mode_of(config.verbose)));
    steps
}

/// The steps of an update with these settings.
pub fn update_plan(config: &InstallConfig) -> (r: Vec<Step>)
    ensures
        step_views(r@) == update_steps(config.root@, config.branch@, mode_of(config.verbose)),
{
    let cs = components();
    let mut steps: Vec<Step> = Vec::new();
    assert(step_views(steps@) =~= seq![]);
    push_dependency_checks(&mut steps);
    push_all_component_steps(&mut steps, config, &cs, false);
    push_staging_steps(&mut steps, config, &cs);
    assert(step_views(steps@) =~= update_steps(config.root@, config.branch@, mode_of(config.verbose)));
    steps
}

/// The instruction, given once after an install, to put the install root's
/// `bin` on the shell's search path.
pub fn path_instruction(root: &str) -> (r: String)
    ensures
        r@ == "Before you can use MCLang you have to put 'export PATH=\"$PATH:"@ + root@
            + "/bin\"' in your .bashrc or .zshrc (for fish shell it is diffrent)"@,
{
    let mut r = String::from_str("Before you can use MCLang you have to put 'export PATH=\"$PATH:");
    r.append(root);
    r.append("/bin\"' in your .bashrc or .zshrc (for fish shell it is diffrent)");
    r
}

/// Where a run stands.
#[derive(Debug, Clone, Copy, PartialEq, Eq, Structural)]
pub enum Progress {
    /// A step is yet to be done.
    Running,
    /// Every step was done.
    Succeeded,
    /// A step failed so; no step comes after it.
    Failed(ExecutionError),
}

/// A run of an install or an update: its steps in order, how many of them are
/// done, and the error of the step that failed, if one did. The caller performs
/// the current step and hands back what came of it.
#[derive(Debug, Clone)]
pub struct Workflow {
    pub steps: Vec<Step>,
    pub next: usize,
    pub failure: Option<ExecutionError>,
    pub verbose: bool,
}

impl Workflow {
    /// The steps done lie before `next`; a failed step is the one at `next`.
    pub open spec fn wf(&self) -> bool {
        &&& self.next <= self.steps@.len()
        &&& self.failure is Some ==> self.next < self.steps@.len()
    }

    /// Where the run stands.
    pub open spec fn progress(&self) -> Progress {
        match self.failure {
            Some(e) => Progress::Failed(e),
            None => if self.next == self.steps@.len() {
                Progress::Succeeded
            } else {
                Progress::Running
            },
        }
    }

    /// Where the run stands.
    pub fn progress_now(&self) -> (r: Progress)
        requires
            self.wf(),
        ensures
            r == self.progress(),
    {
        match self.failure {
            Some(e) => Progress::Failed(e),
            None => if self.next == self.steps.len() {
                Progress::Succeeded
            } else {
                Progress::Running
            },
        }
    }

    /// The step to perform now; none once the run has ended.
    pub fn current(&self) -> (r: Option<&Step>)
        requires
            self.wf(),
        ensures
            self.progress() is Running ==> r == Some(&self.steps@[self.next as int]),
            !(self.progress() is Running) ==> r is None,
    {
        if self.failure.is_none() && self.next < self.steps.len() {
            Some(&self.steps[self.next])
        } else {
            None
        }
    }

    /// Takes in whether the program of the current check could be started.
    /// Either way the run goes on: the check only advises.
    pub fn probed(&mut self, started: bool) -> (r: DependencyReport)
        requires
            old(self).wf(),
            old(self).progress() is Running,
            old(self).steps@[old(self).next as int] is Check,
        ensures
            final(self).wf(),
            final(self).steps == old(self).steps,
            final(self).verbose == old(self).verbose,
            final(self).next == old(self).next + 1,
            final(self).failure is None,
            r == dependency_report(
                old(self).verbose,
                old(self).steps@[old(self).next as int]->Check_0@,
                started,
            ),
    {
        let r = match &self.steps[self.next] {
            Step::Check(prog) => check_if_installed(self.verbose, prog.as_str(), started),
            Step::Run(_) => DependencyReport::Found { announce: false },
        };
        proof {
            assert(self.next < self.steps.len());
        }
        self.next = self.next + 1;
        r
    }

    /// Takes in how the command of the current step ended. Success moves on to
    /// the next step; anything else ends the run with that error.
    pub fn exited(&mut self, outcome: &InvocationOutcome) -> (r: RunReport)
        requires
            old(self).wf(),
            old(self).progress() is Running,
            old(self).steps@[old(self).next as int] is Run,
        ensures
            final(self).wf(),
            final(self).steps == old(self).steps,
            final(self).verbose == old(self).verbose,
            report_fits(outcome, &r),
            run_result(outcome.status) is Ok ==> final(self).next == old(self).next + 1
                && final(self).failure is None,
            run_result(outcome.status) is Err ==> final(self).next == old(self).next
                && final(self).failure == Some(run_result(outcome.status)->Err_0),
    {
        let r = run_cmd(outcome);
        proof {
            assert(self.next < self.steps.len());
        }
        match r.result {
            Ok(()) => {
                self.next = self.next + 1;
            },
            Err(e) => {
                self.failure = Some(e);
            },
        }
        r
    }

    /// Takes in that the program of the current step could not be started,
    /// which ends the run.
    pub fn spawn_failed(&mut self)
        requires
            old(self).wf(),
            old(self).progress() is Running,
        ensures
            final(self).wf(),
            final(self).steps == old(self).steps,
            final(self).verbose == old(self).verbose,
            final(self).next == old(self).next,
            final(self).failure == Some(ExecutionError::Spawn),
    {
        self.failure = Some(ExecutionError::Spawn);
    }
}

/// An install with these settings, before its first step, where the answer
/// confirms it; no run where it does not. Only settings with an accepted branch
/// make a run.
pub fn install(config: &InstallConfig, answer: &str) -> (r: Result<Workflow, InstallError>)
    requires
        config.wf(),
    ensures
        confirm_of(lowered(answer@)) is Err ==> r is Err && r->Err_0 == confirm_of(
            lowered(answer@),
        )->Err_0,
        confirm_of(lowered(answer@)) is Ok ==> r is Ok && r->Ok_0.wf() && step_views(r->Ok_0.steps@)
            == install_steps(config.root@, config.branch@, mode_of(config.verbose)) && r->Ok_0.next
            == 0 && r->Ok_0.failure is None && r->Ok_0.verbose == config.verbose,
{
    match confirm(answer) {
        Ok(()) => Ok(
            Workflow { steps: install_plan(config), next: 0, failure: None, verbose: config.verbose },
        ),
        Err(e) => Err(e),
    }
}

/// An update with these settings, before its first step, where the answer
/// confirms it; no run where it does not. Only settings with an accepted branch
/// make a run.
pub fn update(config: &InstallConfig, answer: &str) -> (r: Result<Workflow, InstallError>)
    requires
        config.wf(),
    ensures
        confirm_of(lowered(answer@)) is Err ==> r is Err && r->Err_0 == confirm_of(
            lowered(answer@),
        )->Err_0,
        confirm_of(lowered(answer@)) is Ok ==> r is Ok && r->Ok_0.wf() && step_views(r->Ok_0.steps@)
            == update_steps(config.root@, config.branch@, mode_of(config.verbose)) && r->Ok_0.next
            == 0 && r->Ok_0.failure is None && r->Ok_0.verbose == config.verbose,
{
    match confirm(answer) {
        Ok(()) => Ok(
            Workflow { steps: update_plan(config), next: 0, failure: None, verbose: config.verbose },
        ),
        Err(e) => Err(e),
    }
}

/// An empty answer to the question whether to go on declines: `install` and
/// `update` then give `UserAborted` and no run, so nothing on disk is touched.
pub proof fn empty_answer_declines(answer: Seq<char>)
    requires
        answer.len() == 0,
    ensures
        confirm_of(lowered(answer)) == Err::<(), InstallError>(InstallError::UserAborted),
{
}

/// Settings that can start a run never hold the branch that an answer outside
/// `dev`, `stable` and `main-v2` asks for (an empty answer asks for `stable`).
pub proof fn unknown_branch_gives_no_settings(branch: Seq<char>, config: InstallConfig)
    requires
        !accepted_branch(branch_of(branch)),
        config.wf(),
    ensures
        config.branch@ != branch_of(branch),
{
}

} // verus!
