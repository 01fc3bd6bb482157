//! From resolved settings to the invocation of the transfer program.
//!
//! The invocation has this shape, optional parts in brackets:
//!
//! ```text
//! rsync -a -z [-v] [--omit-dir-times] [--no-perms] (--exclude PATTERN)*
//!       [--delete] -e "ssh -p PORT" SRC USER@SERVER:TARGET
//! ```

use vstd::prelude::*;
use crate::command::Cmd;
use crate::error::Error;
use crate::outside::{debug_quoted, quote};
use crate::resolve::{Params, ParamsView};
use crate::text::{decimal, decimal_text, lemma_texts_push, texts};

verus! {

/// One thing that carrying out a plan does.
#[derive(Clone, Copy, Debug, PartialEq, Eq, Structural)]
pub enum Step {
    /// Record the current time as the time of the directory's last backup.
    WriteTimestamp,
    /// Print the invocation.
    EchoCommand,
    /// Run the transfer program and wait for it.
    RunTransfer,
}

/// What is to be done for one directory: the steps, in the order in which
/// they are taken, and the invocation that they print or run.
#[derive(Clone, Debug, PartialEq, Eq)]
pub struct TransferPlan {
    pub program: String,
    pub args: Vec<String>,
    pub steps: Vec<Step>,
}

/// The mathematical content of a [`TransferPlan`].
pub struct TransferPlanView {
    pub program: Seq<char>,
    pub args: Seq<Seq<char>>,
    pub steps: Seq<Step>,
}

impl View for TransferPlan {
    type V = TransferPlanView;

    open spec fn view(&self) -> TransferPlanView {
        TransferPlanView { program: self.program@, args: texts(self.args@), steps: self.steps@ }
    }
}

/// The name of the transfer program.
pub open spec fn program_name() -> Seq<char> {
    "rsync"@
}

/// The flag that asks the transfer program to delete what the source lacks.
pub open spec fn delete_flag() -> Seq<char> {
    "--delete"@
}

/// The flag that keeps the transfer program from carrying over permissions.
pub open spec fn no_perms_flag() -> Seq<char> {
    "--no-perms"@
}

/// The flag that keeps the transfer program from carrying over the times of directories.
pub open spec fn omit_dir_times_flag() -> Seq<char> {
    "--omit-dir-times"@
}

/// The flag `text` where `on` holds, else nothing.
pub open spec fn flag(on: bool, text: Seq<char>) -> Seq<Seq<char>> {
    if on {
        seq![text]
    } else {
        Seq::empty()
    }
}

/// One `--exclude` and the pattern, for each pattern in order.
pub open spec fn exclude_args(patterns: Seq<Seq<char>>) -> Seq<Seq<char>> {
    Seq::new(
        2 * patterns.len(),
        |i: int|
            if i % 2 == 0 {
                "--exclude"@
            } else {
                patterns[i / 2]
            },
    )
}

/// The remote shell that the transfer goes through.
pub open spec fn remote_shell(port: u32) -> Seq<char> {
    "ssh -p "@ + decimal_text(port as nat)
}

/// Where the files go: `user@server:target`.
pub open spec fn address(p: ParamsView) -> Seq<char> {
    p.user + "@"@ + p.ip + ":"@ + p.target_dir
}

impl ParamsView {
    /// Whether the invocation is to be shown: asked for, or implied by a dry run.
    pub open spec fn chatty(self) -> bool {
        self.verbose || self.dbg
    }

    /// Whether a transfer can be carried out with these settings: the command
    /// is `Push` or `Sync`, server and user are not empty, the port is positive.
    pub open spec fn ready(self) -> bool {
        &&& (self.cmd == Some(Cmd::Push) || self.cmd == Some(Cmd::Sync))
        &&& self.ip.len() > 0
        &&& self.user.len() > 0
        &&& self.port > 0
    }
}

/// The arguments of the transfer program for the settings `p` and the command `cmd`.
pub open spec fn transfer_args(p: ParamsView, cmd: Cmd) -> Seq<Seq<char>> {
    seq!["-a"@, "-z"@] + flag(p.chatty(), "-v"@) + flag(
        !p.update_dir_times,
        omit_dir_times_flag(),
    ) + flag(!p.update_permissions, no_perms_flag()) + exclude_args(p.exclude) + flag(
        cmd == Cmd::Sync,
        delete_flag(),
    ) + seq!["-e"@, remote_shell(p.port), p.src_dir, address(p)]
}

/// The steps for the settings `p`, in order. A dry run only shows the
/// invocation. A real run records the time first, shows the invocation if
/// that was asked for, and then runs the transfer.
pub open spec fn steps_of(p: ParamsView) -> Seq<Step> {
    if p.dbg {
        seq![Step::EchoCommand]
    } else if p.verbose {
        seq![Step::WriteTimestamp, Step::EchoCommand, Step::RunTransfer]
    } else {
        seq![Step::WriteTimestamp, Step::RunTransfer]
    }
}

/// Why the settings `p` cannot be carried out, if they cannot. The first of
/// these that holds: no command; the fetch command; no server; no user; port zero.
pub open spec fn refusal(p: ParamsView) -> Option<Error> {
    if p.cmd is None {
        Some(Error::NoCommand)
    } else if p.cmd == Some(Cmd::Fetch) {
        Some(Error::FetchUnimplemented)
    } else if p.ip.len() == 0 {
        Some(Error::MissingServer)
    } else if p.user.len() == 0 {
        Some(Error::MissingUser)
    } else if p.port == 0 {
        Some(Error::InvalidPort)
    } else {
        None
    }
}

/// The plan for the settings `p`, or why there is none.
pub open spec fn plan_of(p: ParamsView) -> Result<TransferPlanView, Error> {
    match refusal(p) {
        Some(e) => Err(e),
        None => Ok(
            TransferPlanView {
                program: program_name(),
                args: transfer_args(p, p.cmd->Some_0),
                steps: steps_of(p),
            },
        ),
    }
}

/// The mathematical content of a plan, or the refusal.
pub open spec fn plan_view(r: Result<TransferPlan, Error>) -> Result<TransferPlanView, Error> {
    match r {
        Ok(p) => Ok(p@),
        Err(e) => Err(e),
    }
}

/// Appends a copy of `s` to `list`.
fn push_text(list: &mut Vec<String>, s: &str)
    ensures
        texts(final(list)@) == texts(old(list)@).push(s@),
{
    let owned: String = String::from_str(s);
    proof {
        lemma_texts_push(list@, owned);
    }
    list.push(owned);
}

/// Checks the settings: a transfer needs a command that is implemented, a
/// server, a user and a port other than zero.
pub fn validate(p: &Params) -> (r: Result<Cmd, Error>)
    ensures
        match refusal(p@) {
            Some(e) => r == Err::<Cmd, Error>(e),
            None => p@.cmd is Some && r == Ok::<Cmd, Error>(p@.cmd->Some_0),
        },
{
    let cmd: Cmd = match p.cmd {
        None => {
            return Err(Error::NoCommand);
        },
        Some(Cmd::Fetch) => {
            return Err(Error::FetchUnimplemented);
        },
        Some(c) => c,
    };
    if p.ip.as_str().is_empty() {
        return Err(Error::MissingServer);
    }
    if p.user.as_str().is_empty() {
        return Err(Error::MissingUser);
    }
    if p.port == 0 {
        return Err(Error::InvalidPort);
    }
    Ok(cmd)
}

/// Builds the arguments of the transfer program.
pub fn build_args(p: &Params, cmd: Cmd) -> (r: Vec<String>)
    ensures
        texts(r@) == transfer_args(p@, cmd),
{
    let mut args: Vec<String> = Vec::new();
    assert(texts(args@) =~= Seq::<Seq<char>>::empty());
    push_text(&mut args, "-a");
    push_text(&mut args, "-z");
    if p.verbose || p.dbg {
        push_text(&mut args, "-v");
    }
    if !p.update_dir_times {
        push_text(&mut args, "--omit-dir-times");
    }
    if !p.update_permissions {
        push_text(&mut args, "--no-perms");
    }
    let ghost head = texts(args@);
    assert(head =~= seq!["-a"@, "-z"@] + flag(p@.chatty(), "-v"@) + flag(
        !p.update_dir_times,
        omit_dir_times_flag(),
    ) + flag(!p.update_permissions, no_perms_flag()));
    let ghost patterns = texts(p.exclude@);
    let mut i: usize = 0;
    while i < p.exclude.len()
        invariant
            i <= p.exclude.len(),
            patterns == texts(p.exclude@),
            texts(args@) == head + exclude_args(patterns.take(i as int)),
        decreases p.exclude.len() - i,
    {
        let ghost before = texts(args@);
        push_text(&mut args, "--exclude");
        push_text(&mut args, p.exclude[i].as_str());
        proof {
            let shorter = exclude_args(patterns.take(i as int));
            let longer = exclude_args(patterns.take(i + 1));
            assert(longer =~= shorter.push("--exclude"@).push(patterns[i as int])) by {
                assert forall|j: int| 0 <= j < longer.len() implies longer[j] == shorter.push(
                    "--exclude"@,
                ).push(patterns[i as int])[j] by {
                    if j < 2 * i {
                        assert(j / 2 < i);
                    } else if j == 2 * i {
                        assert(j % 2 == 0);
                    } else {
                        assert(j == 2 * i + 1);
                        assert(j % 2 == 1);
                        assert(j / 2 == i);
                    }
                }
            }
            assert(texts(args@) =~= head + longer);
        }
        i += 1;
    }
    assert(patterns.take(i as int) =~= patterns);
    if cmd.removes_extraneous() {
        push_text(&mut args, "--delete");
    }
    let ghost upto = texts(args@);
    assert(upto =~= head + exclude_args(patterns) + flag(cmd == Cmd::Sync, delete_flag()));
    push_text(&mut args, "-e");
    let mut shell: String = String::from_str("ssh -p ");
    let port_text: String = decimal(p.port);
    shell.append(port_text.as_str());
    push_text(&mut args, shell.as_str());
    push_text(&mut args, p.src_dir.as_str());
    let mut target: String = p.user.clone();
    target.append("@");
    target.append(p.ip.as_str());
    target.append(":");
    target.append(p.target_dir.as_str());
    push_text(&mut args, target.as_str());
    assert(texts(args@) =~= upto + seq!["-e"@, remote_shell(p.port), p@.src_dir, address(p@)]);
    args
}

/// The steps for the settings `p`, in order.
pub fn build_steps(p: &Params) -> (r: Vec<Step>)
    ensures
        r@ == steps_of(p@),
{
    let mut steps: Vec<Step> = Vec::new();
    if !p.dbg {
        steps.push(Step::WriteTimestamp);
    }
    if p.verbose || p.dbg {
        steps.push(Step::EchoCommand);
    }
    if !p.dbg {
        steps.push(Step::RunTransfer);
    }
    assert(steps@ =~= steps_of(p@));
    steps
}

/// Plans the backup of one directory from its resolved settings.
///
/// Nothing is refused after a step was taken: the settings are checked
/// first, and a refusal comes without a plan.
pub fn plan_transfer(p: &Params) -> (r: Result<TransferPlan, Error>)
    ensures
        plan_view(r) == plan_of(p@),
{
    let cmd: Cmd = match validate(p) {
        Ok(c) => c,
        Err(e) => {
            return Err(e);
        },
    };
    Ok(
        TransferPlan {
            program: String::from_str("rsync"),
            args: build_args(p, cmd),
            steps: build_steps(p),
        },
    )
}

/// What the end of the transfer program means for the operation: it
/// succeeded where the program was started and ended with success, and it
/// failed in every other case. `exited_ok` says whether the former holds.
pub fn transfer_outcome(exited_ok: bool) -> (r: Result<(), Error>)
    ensures
        r == (if exited_ok {
            Ok::<(), Error>(())
        } else {
            Err(Error::TransferFailed)
        }),
{
    if exited_ok {
        Ok(())
    } else {
        Err(Error::TransferFailed)
    }
}

/// The words of `words` in order, each after one blank.
pub open spec fn spaced(words: Seq<Seq<char>>) -> Seq<char>
    decreases words.len(),
{
    if words.len() == 0 {
        Seq::empty()
    } else {
        spaced(words.drop_last()) + " "@ + words.last()
    }
}

/// The line that shows an invocation, given its words as they are to be shown.
pub open spec fn echo_text(shown_program: Seq<char>, shown_args: Seq<Seq<char>>) -> Seq<char> {
    " ** "@ + shown_program + spaced(shown_args)
}

/// Each word of `words` in quotes.
pub open spec fn quoted_all(words: Seq<Seq<char>>) -> Seq<Seq<char>> {
    Seq::new(words.len(), |i: int| debug_quoted(words[i]))
}

/// The line that shows an invocation, given its words as they are to be shown.
pub fn echo_line_shown(shown_program: &str, shown_args: &Vec<String>) -> (r: String)
    ensures
        r@ == echo_text(shown_program@, texts(shown_args@)),
{
    let mut line: String = String::from_str(" ** ");
    line.append(shown_program);
    let ghost words = texts(shown_args@);
    let mut i: usize = 0;
    assert(words.take(0) =~= Seq::<Seq<char>>::empty());
    while i < shown_args.len()
        invariant
            i <= shown_args.len(),
            words == texts(shown_args@),
            line@ == " ** "@ + shown_program@ + spaced(words.take(i as int)),
        decreases shown_args.len() - i,
    {
        line.append(" ");
        line.append(shown_args[i].as_str());
        proof {
            let longer = words.take(i + 1);
            assert(longer.drop_last() =~= words.take(i as int));
            assert(longer.last() == words[i as int]);
            assert(line@ =~= " ** "@ + shown_program@ + spaced(longer));
        }
        i += 1;
    }
    assert(words.take(i as int) =~= words);
    line
}

/// The line that shows the invocation of a plan: the program and each
/// argument in quotes, with blanks between them.
pub fn echo_line(plan: &TransferPlan) -> (r: String)
    ensures
        r@ == echo_text(debug_quoted(plan@.program), quoted_all(plan@.args)),
{
    let shown_program: String = quote(plan.program.as_str());
    let mut shown: Vec<String> = Vec::new();
    let mut i: usize = 0;
    while i < plan.args.len()
        invariant
            i <= plan.args.len(),
            shown.len() == i,
            forall|j: int| 0 <= j < i ==> shown@[j]@ == debug_quoted(plan.args@[j]@),
        decreases plan.args.len() - i,
    {
        shown.push(quote(plan.args[i].as_str()));
        i += 1;
    }
    assert(texts(shown@) =~= quoted_all(plan@.args));
    echo_line_shown(shown_program.as_str(), &shown)
}

/// Whether the character `c` occurs nowhere in `s`.
pub open spec fn free_of(s: Seq<char>, c: char) -> bool {
    forall|k: int| 0 <= k < s.len() ==> s[k] != c
}

/// The three optional flags hold no `@` and start with a dash.
proof fn lemma_flag_texts()
    ensures
        free_of(delete_flag(), '@'),
        free_of(no_perms_flag(), '@'),
        free_of(omit_dir_times_flag(), '@'),
        delete_flag().len() == 8,
        no_perms_flag().len() == 10,
        omit_dir_times_flag().len() == 16,
        delete_flag()[0] == '-',
        no_perms_flag()[0] == '-',
        omit_dir_times_flag()[0] == '-',
        delete_flag()[2] == 'd',
        no_perms_flag()[2] == 'n',
        omit_dir_times_flag()[2] == 'o',
{
    reveal_strlit("--delete");
    reveal_strlit("--no-perms");
    reveal_strlit("--omit-dir-times");
}

/// Every argument is one of the fixed words, a pattern, or one of the three
/// operands; and each optional word is there only under its condition.
proof fn lemma_argument_kinds(p: ParamsView, cmd: Cmd, x: Seq<char>)
    requires
        transfer_args(p, cmd).contains(x),
    ensures
        ({
            ||| x == "-a"@
            ||| x == "-z"@
            ||| x == "-e"@
            ||| x == "--exclude"@
            ||| (x == "-v"@ && p.chatty())
            ||| (x == omit_dir_times_flag() && !p.update_dir_times)
            ||| (x == no_perms_flag() && !p.update_permissions)
            ||| (x == delete_flag() && cmd == Cmd::Sync)
            ||| p.exclude.contains(x)
            ||| x == remote_shell(p.port)
            ||| x == p.src_dir
            ||| x == address(p)
        }),
{
    let args = transfer_args(p, cmd);
    let i = choose|i: int| 0 <= i < args.len() && args[i] == x;
    let a = seq!["-a"@, "-z"@];
    let b = flag(p.chatty(), "-v"@);
    let c = flag(!p.update_dir_times, omit_dir_times_flag());
    let d = flag(!p.update_permissions, no_perms_flag());
    let e = exclude_args(p.exclude);
    let f = flag(cmd == Cmd::Sync, delete_flag());
    let g = seq!["-e"@, remote_shell(p.port), p.src_dir, address(p)];
    let n1 = a.len();
    let n2 = n1 + b.len();
    let n3 = n2 + c.len();
    let n4 = n3 + d.len();
    let n5 = n4 + e.len();
    let n6 = n5 + f.len();
    if i < n1 {
        assert(args[i] == a[i]);
    } else if i < n2 {
        assert(args[i] == b[i - n1]);
    } else if i < n3 {
        assert(args[i] == c[i - n2]);
    } else if i < n4 {
        assert(args[i] == d[i - n3]);
    } else if i < n5 {
        let j = i - n4;
        assert(args[i] == e[j]);
        if j % 2 == 1 {
            assert(0 <= j / 2 < p.exclude.len());
            assert(p.exclude[j / 2] == x);
        }
    } else if i < n6 {
        assert(args[i] == f[i - n5]);
    } else {
        assert(args[i] == g[i - n6]);
    }
}

/// A synchronisation always asks for deletion: its arguments hold the
/// deletion flag, whatever the other settings are.
pub proof fn lemma_sync_deletes(p: ParamsView)
    ensures
        transfer_args(p, Cmd::Sync).contains(delete_flag()),
{
    let args = transfer_args(p, Cmd::Sync);
    let at = 2 + flag(p.chatty(), "-v"@).len() + flag(
        !p.update_dir_times,
        omit_dir_times_flag(),
    ).len() + flag(!p.update_permissions, no_perms_flag()).len() + exclude_args(p.exclude).len();
    assert(args[at as int] == delete_flag());
}

/// Whether none of the texts that the operator chooses freely (the source
/// directory and the exclusion patterns) is itself the word `word`.
pub open spec fn operands_avoid(p: ParamsView, word: Seq<char>) -> bool {
    p.src_dir != word && !p.exclude.contains(word)
}

/// The address holds an `@`, so it is none of the optional flags; the remote
/// shell starts with an `s`, so it is none of them either.
proof fn lemma_operands_are_no_flags(p: ParamsView)
    ensures
        address(p) != delete_flag(),
        address(p) != no_perms_flag(),
        address(p) != omit_dir_times_flag(),
        remote_shell(p.port) != delete_flag(),
        remote_shell(p.port) != no_perms_flag(),
        remote_shell(p.port) != omit_dir_times_flag(),
{
    lemma_flag_texts();
    reveal_strlit("@");
    reveal_strlit(":");
    reveal_strlit("ssh -p ");
    let a = address(p);
    let k = p.user.len() as int;
    assert(a[k] == '@');
    assert(remote_shell(p.port)[0] == 's');
}

/// The fixed words of an invocation are all different from the three optional flags.
proof fn lemma_fixed_words_are_no_flags()
    ensures
        "-a"@ != delete_flag(),
        "-z"@ != delete_flag(),
        "-e"@ != delete_flag(),
        "-v"@ != delete_flag(),
        "--exclude"@ != delete_flag(),
        "-a"@ != no_perms_flag(),
        "-z"@ != no_perms_flag(),
        "-e"@ != no_perms_flag(),
        "-v"@ != no_perms_flag(),
        "--exclude"@ != no_perms_flag(),
        "-a"@ != omit_dir_times_flag(),
        "-z"@ != omit_dir_times_flag(),
        "-e"@ != omit_dir_times_flag(),
        "-v"@ != omit_dir_times_flag(),
        "--exclude"@ != omit_dir_times_flag(),
        delete_flag() != no_perms_flag(),
        delete_flag() != omit_dir_times_flag(),
        no_perms_flag() != omit_dir_times_flag(),
{
    lemma_flag_texts();
    reveal_strlit("-a");
    reveal_strlit("-z");
    reveal_strlit("-e");
    reveal_strlit("-v");
    reveal_strlit("--exclude");
}

/// Only a synchronisation asks for deletion: for any other command the
/// arguments hold the deletion flag nowhere, provided that neither the
/// source directory nor an exclusion pattern is itself that word.
pub proof fn lemma_only_sync_deletes(p: ParamsView, cmd: Cmd)
    requires
        cmd != Cmd::Sync,
        operands_avoid(p, delete_flag()),
    ensures
        !transfer_args(p, cmd).contains(delete_flag()),
{
    if transfer_args(p, cmd).contains(delete_flag()) {
        lemma_argument_kinds(p, cmd, delete_flag());
        lemma_operands_are_no_flags(p);
        lemma_fixed_words_are_no_flags();
    }
}

/// Permissions and the times of directories are carried over only where the
/// settings say so: the flag that suppresses each is among the arguments
/// whenever its setting is off, and, provided that neither the source
/// directory nor an exclusion pattern is itself that word, only then.
pub proof fn lemma_suppression_flags(p: ParamsView, cmd: Cmd)
    ensures
        !p.update_permissions ==> transfer_args(p, cmd).contains(no_perms_flag()),
        !p.update_dir_times ==> transfer_args(p, cmd).contains(omit_dir_times_flag()),
        p.update_permissions && operands_avoid(p, no_perms_flag()) ==> !transfer_args(
            p,
            cmd,
        ).contains(no_perms_flag()),
        p.update_dir_times && operands_avoid(p, omit_dir_times_flag()) ==> !transfer_args(
            p,
            cmd,
        ).contains(omit_dir_times_flag()),
{
    let args = transfer_args(p, cmd);
    let n2 = 2 + flag(p.chatty(), "-v"@).len();
    let n3 = n2 + flag(!p.update_dir_times, omit_dir_times_flag()).len();
    if !p.update_dir_times {
        assert(args[n2 as int] == omit_dir_times_flag());
    }
    if !p.update_permissions {
        assert(args[n3 as int] == no_perms_flag());
    }
    lemma_operands_are_no_flags(p);
    lemma_fixed_words_are_no_flags();
    if args.contains(no_perms_flag()) {
        lemma_argument_kinds(p, cmd, no_perms_flag());
    }
    if args.contains(omit_dir_times_flag()) {
        lemma_argument_kinds(p, cmd, omit_dir_times_flag());
    }
}

/// There is a plan exactly for the settings that are ready; every other
/// setting is refused, and a dry run is refused like a real one.
pub proof fn lemma_plan_iff_ready(p: ParamsView)
    ensures
        plan_of(p) is Ok <==> p.ready(),
        plan_of(p) is Ok <==> plan_of(ParamsView { dbg: !p.dbg, ..p }) is Ok,
{
}

/// A dry run changes nothing: whatever the settings, its plan never records
/// a time and never runs the transfer, and it always shows the invocation.
/// A real run does both, the record first.
pub proof fn lemma_dry_run_is_harmless(p: ParamsView)
    requires
        plan_of(p) is Ok,
    ensures
        ({
            let steps = plan_of(p)->Ok_0.steps;
            &&& p.dbg ==> !steps.contains(Step::WriteTimestamp) && !steps.contains(
                Step::RunTransfer,
            ) && steps.contains(Step::EchoCommand)
            &&& !p.dbg ==> steps.first() == Step::WriteTimestamp && steps.last()
                == Step::RunTransfer
            &&& steps.contains(Step::EchoCommand) <==> p.chatty()
        }),
{
    let steps = plan_of(p)->Ok_0.steps;
    if p.dbg {
        assert(steps[0] == Step::EchoCommand);
    } else if p.verbose {
        assert(steps[1] == Step::EchoCommand);
    }
}

} // verus!
