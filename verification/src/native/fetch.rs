//! Fetching the engine's source at the pinned commit.
use vstd::prelude::*;
use vstd::string::*;

use crate::native::vendored::BuildError;
use crate::text::{same_text, trim};

verus! {

/// The commit that the source is pinned to, and the name of the patch on top.
pub open spec fn stamp_text() -> Seq<char> {
    "03c6f818eaeadf76e66dda99ab5529c9b47fa15c:phux-5js7"@
}

/// What a source tree at the pinned commit with the patch applied is stamped
/// with.
pub fn stamp_value() -> (s: &'static str)
    ensures
        s@ == stamp_text(),
{
    "03c6f818eaeadf76e66dda99ab5529c9b47fa15c:phux-5js7"
}

/// The directory of the source tree, in the output directory.
pub const TREE_DIR: &'static str = "ghostty-src";

/// The stamp file, in the source tree.
pub const STAMP_FILE: &'static str = ".ghostty-commit";

/// The patch, in the directory of the build script's package.
pub const PATCH_FILE: &'static str = "patches/spacer-head-dirty.patch";

/// The commit that the source is pinned to.
pub fn pinned_commit() -> (s: &'static str)
    ensures
        s@ == "03c6f818eaeadf76e66dda99ab5529c9b47fa15c"@,
{
    "03c6f818eaeadf76e66dda99ab5529c9b47fa15c"
}

/// What to do about the source tree.
#[derive(Clone, Copy, Debug, PartialEq, Eq, Structural)]
pub enum FetchPlan {
    /// It is there, at the right commit and patched.
    Reuse,
    /// Clone it, after removing the tree that is there, if there is one.
    Clone { remove: bool },
}

/// What to do about a source tree with the given content of its stamp file, where
/// there is one that can be read. White space around the stamp does not matter.
pub open spec fn plan_for(stamp: Option<Seq<char>>, tree_exists: bool) -> FetchPlan {
    match stamp {
        Some(s) if crate::text::trimmed(s) == stamp_text() => FetchPlan::Reuse,
        _ => FetchPlan::Clone { remove: tree_exists },
    }
}

/// The characters of a text that may be missing.
pub open spec fn content(text: Option<&str>) -> Option<Seq<char>> {
    match text {
        Some(s) => Some(s@),
        None => None,
    }
}

/// Decides about the source tree; `stamp` is the content of its stamp file.
pub fn fetch_plan(stamp: Option<&str>, tree_exists: bool) -> (p: FetchPlan)
    ensures
        p == plan_for(content(stamp), tree_exists),
{
    if let Some(existing) = stamp {
        let found = trim(existing);
        if same_text(found.as_str(), stamp_value()) {
            return FetchPlan::Reuse;
        }
    }
    FetchPlan::Clone { remove: tree_exists }
}

/// An argument of a git command: text, or a path that the caller knows.
#[derive(Clone, Copy, Debug)]
pub enum GitArg {
    Text(&'static str),
    /// The source tree.
    Tree,
    /// The patch.
    Patch,
}

/// What a [`GitArg`] stands for.
pub enum GitWord {
    Text(Seq<char>),
    Tree,
    Patch,
}

impl View for GitArg {
    type V = GitWord;

    open spec fn view(&self) -> GitWord {
        match self {
            GitArg::Text(s) => GitWord::Text(s@),
            GitArg::Tree => GitWord::Tree,
            GitArg::Patch => GitWord::Patch,
        }
    }
}

/// What the arguments of a command stand for.
pub open spec fn words(args: Seq<GitArg>) -> Seq<GitWord> {
    args.map_values(|a: GitArg| a@)
}

/// A git command: what it is called in messages, its arguments, and whether it
/// runs inside the tree.
#[derive(Debug)]
pub struct GitCommand {
    pub context: &'static str,
    pub args: Vec<GitArg>,
    pub in_tree: bool,
}

impl GitCommand {
    /// This clones the repository without a checkout.
    pub open spec fn clones(self) -> bool {
        &&& self.context@ == "git clone ghostty"@
        &&& words(self.args@) == seq![
            GitWord::Text("clone"@),
            GitWord::Text("--filter=blob:none"@),
            GitWord::Text("--no-checkout"@),
            GitWord::Text("https://github.com/phall1/ghostty.git"@),
            GitWord::Tree,
        ]
        &&& !self.in_tree
    }

    /// This checks the pinned commit out.
    pub open spec fn checks_out(self) -> bool {
        &&& self.context@ == "git checkout ghostty commit"@
        &&& words(self.args@) == seq![
            GitWord::Text("checkout"@),
            GitWord::Text("03c6f818eaeadf76e66dda99ab5529c9b47fa15c"@),
        ]
        &&& self.in_tree
    }

    /// This applies the patch.
    pub open spec fn patches(self) -> bool {
        &&& self.context@ == "git apply spacer-head-dirty patch"@
        &&& words(self.args@) == seq![GitWord::Text("apply"@), GitWord::Patch]
        &&& self.in_tree
    }
}

/// Clones the repository without a checkout.
pub fn clone_command() -> (c: GitCommand)
    ensures
        c.clones(),
{
    let args: Vec<GitArg> = vec![
        GitArg::Text("clone"),
        GitArg::Text("--filter=blob:none"),
        GitArg::Text("--no-checkout"),
        GitArg::Text("https://github.com/phall1/ghostty.git"),
        GitArg::Tree,
    ];
    assert(words(args@) =~= seq![
        GitWord::Text("clone"@),
        GitWord::Text("--filter=blob:none"@),
        GitWord::Text("--no-checkout"@),
        GitWord::Text("https://github.com/phall1/ghostty.git"@),
        GitWord::Tree,
    ]);
    GitCommand { context: "git clone ghostty", args, in_tree: false }
}

/// Checks the pinned commit out.
pub fn checkout_command() -> (c: GitCommand)
    ensures
        c.checks_out(),
{
    let args: Vec<GitArg> = vec![
        GitArg::Text("checkout"),
        GitArg::Text("03c6f818eaeadf76e66dda99ab5529c9b47fa15c"),
    ];
    assert(words(args@) =~= seq![
        GitWord::Text("checkout"@),
        GitWord::Text("03c6f818eaeadf76e66dda99ab5529c9b47fa15c"@),
    ]);
    GitCommand { context: "git checkout ghostty commit", args, in_tree: true }
}

/// Applies the patch, which has to be there; `patch` is its path as it is shown.
pub fn apply_wrap_spacer_head_patch(patch: &str, patch_exists: bool) -> (r: Result<
    GitCommand,
    BuildError,
>)
    ensures
        match r {
            Ok(c) => patch_exists && c.patches(),
            Err(e) => !patch_exists && e@ == (crate::native::vendored::Refusal::MissingPatch {
                path: patch@,
            }),
        },
{
    if !patch_exists {
        return Err(BuildError::MissingPatch { path: patch.to_owned() });
    }
    let args: Vec<GitArg> = vec![GitArg::Text("apply"), GitArg::Patch];
    assert(words(args@) =~= seq![GitWord::Text("apply"@), GitWord::Patch]);
    Ok(GitCommand { context: "git apply spacer-head-dirty patch", args, in_tree: true })
}

/// How far fetching has come: the thing to be done next.
#[derive(Clone, Copy, Debug, PartialEq, Eq, Structural)]
pub enum FetchStage {
    /// Remove the tree that is there.
    Removing,
    /// Clone the repository.
    Cloning,
    /// Check the pinned commit out.
    CheckingOut,
    /// Apply the patch.
    Patching,
    /// Write the stamp.
    Stamping,
    /// Nothing: the tree is there.
    Fetched,
    /// Nothing: something went wrong.
    Failed,
}

/// Where a plan begins.
pub open spec fn first_stage(plan: FetchPlan) -> FetchStage {
    match plan {
        FetchPlan::Reuse => FetchStage::Fetched,
        FetchPlan::Clone { remove } => if remove {
            FetchStage::Removing
        } else {
            FetchStage::Cloning
        },
    }
}

/// The stage that follows when the thing to be done was done, or failed.
pub open spec fn stage_after(stage: FetchStage, succeeded: bool) -> FetchStage {
    match stage {
        FetchStage::Fetched => FetchStage::Fetched,
        _ => if !succeeded {
            FetchStage::Failed
        } else {
            match stage {
                FetchStage::Removing => FetchStage::Cloning,
                FetchStage::Cloning => FetchStage::CheckingOut,
                FetchStage::CheckingOut => FetchStage::Patching,
                FetchStage::Patching => FetchStage::Stamping,
                FetchStage::Stamping => FetchStage::Fetched,
                _ => stage,
            }
        },
    }
}

/// What to do next.
#[derive(Debug)]
pub enum FetchAction {
    /// Remove the tree.
    Remove,
    /// Run the command.
    Run(GitCommand),
    /// Write this into the stamp file.
    WriteStamp(&'static str),
    /// The tree can be used.
    Finish,
}

impl FetchAction {
    /// This is what a stage asks for.
    pub open spec fn serves(self, stage: FetchStage) -> bool {
        match stage {
            FetchStage::Removing => self is Remove,
            FetchStage::Cloning => self matches FetchAction::Run(c) && c.clones(),
            FetchStage::CheckingOut => self matches FetchAction::Run(c) && c.checks_out(),
            FetchStage::Patching => self matches FetchAction::Run(c) && c.patches(),
            FetchStage::Stamping => self matches FetchAction::WriteStamp(s) && s@ == stamp_text(),
            FetchStage::Fetched => self is Finish,
            FetchStage::Failed => false,
        }
    }
}

/// Fetching the source tree, one thing after the other.
pub struct Fetch {
    stage: FetchStage,
}

impl View for Fetch {
    type V = FetchStage;

    closed spec fn view(&self) -> FetchStage {
        self.stage
    }
}

impl Fetch {
    /// Begins with what is known of the tree; `stamp` is the content of its stamp
    /// file, where there is one that can be read.
    pub fn new(stamp: Option<&str>, tree_exists: bool) -> (f: Fetch)
        ensures
            f@ == first_stage(plan_for(content(stamp), tree_exists)),
            f@ != FetchStage::Failed,
    {
        let stage: FetchStage = match fetch_plan(stamp, tree_exists) {
            FetchPlan::Reuse => FetchStage::Fetched,
            FetchPlan::Clone { remove } => if remove {
                FetchStage::Removing
            } else {
                FetchStage::Cloning
            },
        };
        Fetch { stage }
    }

    /// How far fetching has come.
    pub fn stage(&self) -> (s: FetchStage)
        ensures
            s == self@,
    {
        self.stage
    }

    /// What to do next. The patch, which `patch` names as it is shown, has to be
    /// there when it is to be applied.
    pub fn action(&self, patch: &str, patch_exists: bool) -> (r: Result<FetchAction, BuildError>)
        requires
            self@ != FetchStage::Failed,
        ensures
            match r {
                Ok(action) => action.serves(self@) && (self@ == FetchStage::Patching
                    ==> patch_exists),
                Err(e) => self@ == FetchStage::Patching && !patch_exists && e@ == (
                crate::native::vendored::Refusal::MissingPatch { path: patch@ }),
            },
    {
        match self.stage {
            FetchStage::Removing => Ok(FetchAction::Remove),
            FetchStage::Cloning => Ok(FetchAction::Run(clone_command())),
            FetchStage::CheckingOut => Ok(FetchAction::Run(checkout_command())),
            FetchStage::Patching => match apply_wrap_spacer_head_patch(patch, patch_exists) {
                Ok(command) => Ok(FetchAction::Run(command)),
                Err(e) => Err(e),
            },
            FetchStage::Stamping => Ok(FetchAction::WriteStamp(stamp_value())),
            _ => Ok(FetchAction::Finish),
        }
    }

    /// Takes note of whether the thing to be done was done.
    pub fn advance(&mut self, succeeded: bool)
        ensures
            final(self)@ == stage_after(old(self)@, succeeded),
    {
        self.stage = match self.stage {
            FetchStage::Fetched => FetchStage::Fetched,
            _ => if !succeeded {
                FetchStage::Failed
            } else {
                match self.stage {
                    FetchStage::Removing => FetchStage::Cloning,
                    FetchStage::Cloning => FetchStage::CheckingOut,
                    FetchStage::CheckingOut => FetchStage::Patching,
                    FetchStage::Patching => FetchStage::Stamping,
                    FetchStage::Stamping => FetchStage::Fetched,
                    FetchStage::Fetched => FetchStage::Fetched,
                    FetchStage::Failed => FetchStage::Failed,
                }
            },
        };
    }
}

/// Where fetching by a plan stands after the given outcomes.
pub open spec fn stage_at(plan: FetchPlan, outcomes: Seq<bool>) -> FetchStage
    decreases outcomes.len(),
{
    if outcomes.len() == 0 {
        first_stage(plan)
    } else {
        stage_after(stage_at(plan, outcomes.drop_last()), outcomes.last())
    }
}

/// The stamp is written only after the clone, the checkout and the patch were run
/// in that order, all of them with success, and the old tree was removed where
/// there was one.
pub proof fn law_stamp_is_written_last(plan: FetchPlan, outcomes: Seq<bool>)
    requires
        stage_at(plan, outcomes) == FetchStage::Stamping,
    ensures
        ({
            let first: int = if plan == (FetchPlan::Clone { remove: true }) {
                1
            } else {
                0
            };
            &&& plan is Clone
            &&& outcomes.len() == first + 3
            &&& forall|i: int| 0 <= i < outcomes.len() ==> outcomes[i]
            &&& first == 1 ==> stage_at(plan, outcomes.take(0)) == FetchStage::Removing
            &&& stage_at(plan, outcomes.take(first)) == FetchStage::Cloning
            &&& stage_at(plan, outcomes.take(first + 1)) == FetchStage::CheckingOut
            &&& stage_at(plan, outcomes.take(first + 2)) == FetchStage::Patching
        }),
{
    let n = outcomes.len() as int;
    let patching = outcomes.drop_last();
    assert(stage_at(plan, patching) == FetchStage::Patching);
    let checking = patching.drop_last();
    assert(stage_at(plan, checking) == FetchStage::CheckingOut);
    let cloning = checking.drop_last();
    assert(stage_at(plan, cloning) == FetchStage::Cloning);
    assert(patching =~= outcomes.take(n - 1));
    assert(checking =~= outcomes.take(n - 2));
    assert(cloning =~= outcomes.take(n - 3));
    assert(outcomes[n - 1] == outcomes.last());
    assert(outcomes[n - 2] == patching.last());
    assert(outcomes[n - 3] == checking.last());
    if cloning.len() > 0 {
        let removing = cloning.drop_last();
        assert(stage_at(plan, removing) == FetchStage::Removing);
        assert(outcomes[n - 4] == cloning.last());
        if removing.len() > 0 {
            assert(stage_after(stage_at(plan, removing.drop_last()), removing.last())
                == FetchStage::Removing);
        }
        assert(removing =~= outcomes.take(0));
    }
}

/// A tree that is reused is left alone: nothing is removed, run or written.
pub proof fn law_reused_trees_are_left_alone(outcomes: Seq<bool>)
    ensures
        stage_at(FetchPlan::Reuse, outcomes) == FetchStage::Fetched,
    decreases outcomes.len(),
{
    if outcomes.len() > 0 {
        law_reused_trees_are_left_alone(outcomes.drop_last());
    }
}

/// The stamp names the pinned commit.
pub proof fn law_stamp_names_the_commit()
    ensures
        crate::text::begins_with(stamp_text(), "03c6f818eaeadf76e66dda99ab5529c9b47fa15c:"@),
{
    reveal_strlit("03c6f818eaeadf76e66dda99ab5529c9b47fa15c:phux-5js7");
    reveal_strlit("03c6f818eaeadf76e66dda99ab5529c9b47fa15c:");
    assert(stamp_text().take(41) =~= "03c6f818eaeadf76e66dda99ab5529c9b47fa15c:"@);
}

/// A tree that was stamped is reused the next time, also where a line break was
/// written behind the stamp.
pub proof fn law_stamped_tree_is_reused()
    ensures
        crate::text::trimmed(stamp_text()) == stamp_text(),
        crate::text::trimmed(stamp_text().push('\n')) == stamp_text(),
        forall|tree_exists: bool| #[trigger]
            plan_for(Some(stamp_text()), tree_exists) == FetchPlan::Reuse,
{
    reveal_strlit("03c6f818eaeadf76e66dda99ab5529c9b47fa15c:phux-5js7");
    let s = stamp_text();
    assert(s.first() == '0' && s.last() == '7');
    assert(crate::text::trimmed(s) == s);
    let t = s.push('\n');
    assert(t.first() == '0' && t.last() == '\n');
    assert(t.drop_last() =~= s);
    assert(crate::text::trimmed(t) == crate::text::trimmed(t.drop_last()));
}

/// A tree is reused exactly where its stamp file can be read and holds the stamp,
/// but for white space around it. Otherwise it is cloned, and a tree that is there
/// is removed first.
pub proof fn law_trees_are_reused_by_their_stamp(
    stamp: Option<&str>,
    tree_exists: bool,
    value: &'static str,
    found: String,
    p: FetchPlan,
    f: Fetch,
    s: FetchStage,
)
    requires
        call_ensures(fetch_plan, (stamp, tree_exists), p),
        call_ensures(stamp_value, (), value),
        stamp is Some ==> call_ensures(trim, (stamp->0,), found),
        call_ensures(Fetch::new, (stamp, tree_exists), f),
        call_ensures(Fetch::stage, (&f,), s),
    ensures
        p == FetchPlan::Reuse <==> stamp is Some && found@ == value@,
        p matches FetchPlan::Clone { remove } ==> remove == tree_exists,
        s == FetchStage::Fetched <==> p == FetchPlan::Reuse,
        s == FetchStage::Removing <==> p is Clone && tree_exists,
        s == FetchStage::Cloning <==> p is Clone && !tree_exists,
{
}

/// The stamp is the pinned commit, a colon and the name of the patch.
pub proof fn law_stamps_name_commit_and_patch(value: &'static str, commit: &'static str)
    requires
        call_ensures(stamp_value, (), value),
        call_ensures(pinned_commit, (), commit),
    ensures
        value@ == commit@ + ":phux-5js7"@,
        commit@ == "03c6f818eaeadf76e66dda99ab5529c9b47fa15c"@,
{
    reveal_strlit("03c6f818eaeadf76e66dda99ab5529c9b47fa15c:phux-5js7");
    reveal_strlit("03c6f818eaeadf76e66dda99ab5529c9b47fa15c");
    reveal_strlit(":phux-5js7");
    assert("03c6f818eaeadf76e66dda99ab5529c9b47fa15c:phux-5js7"@
        =~= "03c6f818eaeadf76e66dda99ab5529c9b47fa15c"@ + ":phux-5js7"@);
}

/// The repository is cloned into the tree without a checkout; inside the tree the
/// pinned commit is then checked out, and the patch applied where it is there.
pub proof fn law_commands_say_what_git_does(
    commit: &'static str,
    clone: GitCommand,
    checkout: GitCommand,
    patch: &str,
    patch_exists: bool,
    apply: Result<GitCommand, BuildError>,
)
    requires
        call_ensures(pinned_commit, (), commit),
        call_ensures(clone_command, (), clone),
        call_ensures(checkout_command, (), checkout),
        call_ensures(apply_wrap_spacer_head_patch, (patch, patch_exists), apply),
    ensures
        clone.context@ == "git clone ghostty"@ && !clone.in_tree && clone.args@.len() == 5,
        clone.args@[0] matches GitArg::Text(s) && s@ == "clone"@,
        clone.args@[1] matches GitArg::Text(s) && s@ == "--filter=blob:none"@,
        clone.args@[2] matches GitArg::Text(s) && s@ == "--no-checkout"@,
        clone.args@[3] matches GitArg::Text(s) && s@ == "https://github.com/phall1/ghostty.git"@,
        clone.args@[4] is Tree,
        checkout.context@ == "git checkout ghostty commit"@ && checkout.in_tree
            && checkout.args@.len() == 2,
        checkout.args@[0] matches GitArg::Text(s) && s@ == "checkout"@,
        checkout.args@[1] matches GitArg::Text(s) && s@ == commit@,
        apply is Ok <==> patch_exists,
        apply matches Ok(c) ==> c.context@ == "git apply spacer-head-dirty patch"@ && c.in_tree
            && c.args@.len() == 2 && (c.args@[0] matches GitArg::Text(s) && s@ == "apply"@)
            && c.args@[1] is Patch,
        !patch_exists ==> (apply matches Err(BuildError::MissingPatch { path }) && path@ == patch@),
{
    lemma_words_stand_for_arguments(clone.args@);
    lemma_words_stand_for_arguments(checkout.args@);
    if let Ok(c) = apply {
        lemma_words_stand_for_arguments(c.args@);
    }
}

/// A command has a word for each of its arguments.
proof fn lemma_words_stand_for_arguments(args: Seq<GitArg>)
    ensures
        words(args).len() == args.len(),
        forall|i: int| 0 <= i < args.len() ==> #[trigger] args[i]@ == words(args)[i],
{
}

/// Each thing to be done leads to the next, in the one order: remove, clone, check
/// out, patch, stamp. A failure ends fetching, and a tree that is there stays there.
pub proof fn law_fetching_goes_step_by_step(
    f: &mut Fetch,
    succeeded: bool,
    before: FetchStage,
    after: FetchStage,
)
    requires
        call_ensures(Fetch::stage, (&*old(f),), before),
        call_ensures(Fetch::advance, (f, succeeded), ()),
        call_ensures(Fetch::stage, (&*final(f),), after),
    ensures
        before == FetchStage::Fetched ==> after == FetchStage::Fetched,
        before == FetchStage::Failed ==> after == FetchStage::Failed,
        !succeeded && before != FetchStage::Fetched ==> after == FetchStage::Failed,
        succeeded ==> {
            &&& after == FetchStage::Cloning <==> before == FetchStage::Removing
            &&& after == FetchStage::CheckingOut <==> before == FetchStage::Cloning
            &&& after == FetchStage::Patching <==> before == FetchStage::CheckingOut
            &&& after == FetchStage::Stamping <==> before == FetchStage::Patching
            &&& before == FetchStage::Stamping ==> after == FetchStage::Fetched
        },
        after != FetchStage::Removing,
{
}

/// Every stage asks for its own thing: the command that git is given is the one for
/// cloning, checking out or patching, and what is written is the stamp. Only a
/// missing patch is in the way, when it is to be applied.
pub proof fn law_stages_ask_for_their_own_thing(
    f: Fetch,
    stage: FetchStage,
    patch: &str,
    patch_exists: bool,
    r: Result<FetchAction, BuildError>,
    value: &'static str,
)
    requires
        stage != FetchStage::Failed,
        call_ensures(Fetch::stage, (&f,), stage),
        call_ensures(Fetch::action, (&f, patch, patch_exists), r),
        call_ensures(stamp_value, (), value),
    ensures
        r is Err <==> stage == FetchStage::Patching && !patch_exists,
        r matches Err(e) ==> e matches BuildError::MissingPatch { path } && path@ == patch@,
        r matches Ok(a) ==> {
            &&& a is Remove <==> stage == FetchStage::Removing
            &&& a is Finish <==> stage == FetchStage::Fetched
            &&& a is WriteStamp <==> stage == FetchStage::Stamping
            &&& a is Run <==> stage == FetchStage::Cloning || stage == FetchStage::CheckingOut
                || stage == FetchStage::Patching
            &&& a matches FetchAction::WriteStamp(s) ==> s@ == value@
            &&& a matches FetchAction::Run(c) ==> c.args@.len() > 0 && (
            c.args@[0] matches GitArg::Text(s) && s@ == (if stage == FetchStage::Cloning {
                "clone"@
            } else if stage == FetchStage::CheckingOut {
                "checkout"@
            } else {
                "apply"@
            })) && (c.in_tree <==> stage != FetchStage::Cloning)
        },
{
    if let Ok(FetchAction::Run(c)) = r {
        lemma_words_stand_for_arguments(c.args@);
    }
}

} // verus!
