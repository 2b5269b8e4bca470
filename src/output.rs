//! The output buffer of one execution, and the host functions that write into it.

use std::collections::VecDeque;
use vstd::prelude::*;

verus! {

/// Text put before each stderr line when the buffer is rendered.
pub const ERROR_MARKER: &'static str = "[ERROR] ";

/// Text put before the message of an `alert` call.
pub const ALERT_MARKER: &'static str = "[ALERT] ";

/// What an execution reports when it produced no output at all.
pub const NO_OUTPUT_TEXT: &'static str = "코드가 실행되었습니다.";

/// Lines joined with a newline between each two of them.
pub open spec fn join_lines(lines: Seq<Seq<char>>) -> Seq<char>
    decreases lines.len(),
{
    if lines.len() == 0 {
        Seq::empty()
    } else if lines.len() == 1 {
        lines[0]
    } else {
        join_lines(lines.drop_last()) + seq!['\n'] + lines.last()
    }
}

/// The views of a sequence of strings.
pub open spec fn views(v: Seq<String>) -> Seq<Seq<char>> {
    v.map_values(|s: String| s@)
}

/// The lines that a buffer renders: stdout lines as they are, then each
/// stderr line after the error marker.
pub open spec fn rendered_lines(stdout: Seq<Seq<char>>, stderr: Seq<Seq<char>>) -> Seq<Seq<char>> {
    stdout + stderr.map_values(|l: Seq<char>| ERROR_MARKER@ + l)
}

/// The text that a buffer renders to.
pub open spec fn render(stdout: Seq<Seq<char>>, stderr: Seq<Seq<char>>) -> Seq<char> {
    join_lines(rendered_lines(stdout, stderr))
}

/// The text an execution reports: the rendering, or the fixed no-output text
/// where the rendering is empty.
pub open spec fn report(stdout: Seq<Seq<char>>, stderr: Seq<Seq<char>>) -> Seq<char> {
    if render(stdout, stderr).len() == 0 {
        NO_OUTPUT_TEXT@
    } else {
        render(stdout, stderr)
    }
}

/// The stdout and stderr lines captured during one execution, each in the
/// order in which they were written.
#[derive(Debug, Clone)]
pub struct ExecutionOutput {
    pub stdout: VecDeque<String>,
    pub stderr: VecDeque<String>,
}

impl ExecutionOutput {
    pub open spec fn stdout_lines(&self) -> Seq<Seq<char>> {
        views(self.stdout@)
    }

    pub open spec fn stderr_lines(&self) -> Seq<Seq<char>> {
        views(self.stderr@)
    }

    /// An empty buffer.
    pub fn new() -> (r: Self)
        ensures
            r.stdout_lines() == Seq::<Seq<char>>::empty(),
            r.stderr_lines() == Seq::<Seq<char>>::empty(),
    {
        let r = ExecutionOutput { stdout: VecDeque::new(), stderr: VecDeque::new() };
        assert(r.stdout_lines() =~= Seq::<Seq<char>>::empty());
        assert(r.stderr_lines() =~= Seq::<Seq<char>>::empty());
        r
    }

    /// Appends a line to stdout.
    pub fn add_stdout(&mut self, message: String)
        ensures
            final(self).stdout_lines() == old(self).stdout_lines().push(message@),
            final(self).stderr_lines() == old(self).stderr_lines(),
    {
        self.stdout.push_back(message);
        assert(self.stdout_lines() =~= old(self).stdout_lines().push(message@));
    }

    /// Appends a line to stderr.
    pub fn add_stderr(&mut self, message: String)
        ensures
            final(self).stderr_lines() == old(self).stderr_lines().push(message@),
            final(self).stdout_lines() == old(self).stdout_lines(),
    {
        self.stderr.push_back(message);
        assert(self.stderr_lines() =~= old(self).stderr_lines().push(message@));
    }

    /// All stdout lines, then all stderr lines after the error marker,
    /// joined by newlines.
    pub fn get_output(&self) -> (r: String)
        ensures
            r@ == render(self.stdout_lines(), self.stderr_lines()),
    {
        let ghost lines = rendered_lines(self.stdout_lines(), self.stderr_lines());
        let mut out = String::new();
        let mut i: usize = 0;
        while i < self.stdout.len()
            invariant
                lines == rendered_lines(self.stdout_lines(), self.stderr_lines()),
                lines.len() == self.stdout@.len() + self.stderr@.len(),
                i <= self.stdout@.len(),
                out@ == join_lines(lines.take(i as int)),
            decreases self.stdout@.len() - i,
        {
            let ghost prev = out@;
            if i > 0 {
                out.append("\n");
            }
            out.append(self.stdout[i].as_str());
            proof {
                assert(lines[i as int] == self.stdout_lines()[i as int]);
                reveal_strlit("\n");
                Self::lemma_join_step(lines, i as int, self.stdout@[i as int]@);
                if i > 0 {
                    assert(out@ =~= prev + seq!['\n'] + self.stdout@[i as int]@);
                } else {
                    assert(out@ =~= self.stdout@[i as int]@);
                }
            }
            i = i + 1;
        }
        let mut j: usize = 0;
        while j < self.stderr.len()
            invariant
                lines == rendered_lines(self.stdout_lines(), self.stderr_lines()),
                lines.len() == self.stdout@.len() + self.stderr@.len(),
                i == self.stdout@.len(),
                j <= self.stderr@.len(),
                out@ == join_lines(lines.take(i + j)),
            decreases self.stderr@.len() - j,
        {
            let ghost prev = out@;
            if i > 0 || j > 0 {
                out.append("\n");
            }
            out.append(ERROR_MARKER);
            out.append(self.stderr[j].as_str());
            proof {
                assert(lines[i + j] == self.stderr_lines().map_values(|l: Seq<char>| ERROR_MARKER@ + l)[j as int]);
                reveal_strlit("\n");
                let line = ERROR_MARKER@ + self.stderr@[j as int]@;
                Self::lemma_join_step(lines, i + j, line);
                if i > 0 || j > 0 {
                    assert(out@ =~= prev + seq!['\n'] + line);
                } else {
                    assert(out@ =~= line);
                }
            }
            j = j + 1;
        }
        assert(lines.take(i + j) =~= lines);
        out
    }

    proof fn lemma_join_step(lines: Seq<Seq<char>>, n: int, line: Seq<char>)
        requires
            0 <= n < lines.len(),
            lines[n] == line,
        ensures
            join_lines(lines.take(n + 1)) == if n == 0 {
                line
            } else {
                join_lines(lines.take(n)) + seq!['\n'] + line
            },
    {
        let t = lines.take(n + 1);
        assert(t.drop_last() =~= lines.take(n));
        if n == 0 {
            assert(t.len() == 1);
        }
    }

    /// What the execution reports once it has run to the end: the rendered
    /// buffer, or the fixed no-output text where that is empty.
    pub fn final_report(&self) -> (r: String)
        ensures
            r@ == report(self.stdout_lines(), self.stderr_lines()),
    {
        let text = self.get_output();
        if text.as_str().is_empty() {
            String::from_str(NO_OUTPUT_TEXT)
        } else {
            text
        }
    }
}

/// The host function behind `console.log`: the message goes to stdout.
pub fn op_console_log(output: &mut ExecutionOutput, message: String)
    ensures
        final(output).stdout_lines() == old(output).stdout_lines().push(message@),
        final(output).stderr_lines() == old(output).stderr_lines(),
{
    output.add_stdout(message);
}

/// The host function behind `alert`: the message goes to stdout after the
/// alert marker.
pub fn op_alert(output: &mut ExecutionOutput, message: String)
    ensures
        final(output).stdout_lines() == old(output).stdout_lines().push(ALERT_MARKER@ + message@),
        final(output).stderr_lines() == old(output).stderr_lines(),
{
    let mut line = String::from_str(ALERT_MARKER);
    line.append(message.as_str());
    output.add_stdout(line);
}

/// The host function behind the print primitive: the message goes to stderr
/// where `is_err` holds, else to stdout.
pub fn op_custom_print(output: &mut ExecutionOutput, message: String, is_err: bool)
    ensures
        is_err ==> final(output).stderr_lines() == old(output).stderr_lines().push(message@)
            && final(output).stdout_lines() == old(output).stdout_lines(),
        !is_err ==> final(output).stdout_lines() == old(output).stdout_lines().push(message@)
            && final(output).stderr_lines() == old(output).stderr_lines(),
{
    if is_err {
        output.add_stderr(message);
    } else {
        output.add_stdout(message);
    }
}

} // verus!
