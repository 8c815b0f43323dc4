use vstd::prelude::*;
use std::io::Write;

verus! {

#[verifier::external_type_specification]
#[verifier::external_body]
/// Declares the standard input handle so that [`Io`] can own it.
pub struct ExStdin(std::io::Stdin);

#[verifier::external_type_specification]
#[verifier::external_body]
/// Declares the standard output handle so that [`Io`] can own it.
pub struct ExStdout(std::io::Stdout);

/// Relies on std::io::stdin: the process's input stream handle.
#[verifier::external_body]
fn acquire_stdin() -> std::io::Stdin {
    std::io::stdin()
}

/// Relies on std::io::stdout: the process's output stream handle.
#[verifier::external_body]
fn acquire_stdout() -> std::io::Stdout {
    std::io::stdout()
}

/// Relies on std::io::Stdin::read_line: reads one line including its
/// newline; a read of zero bytes signals that the peer closed the stream.
/// Nothing can be promised of what arrives: the session state machine
/// states what holds for every outcome.
#[verifier::external_body]
fn read_one_line(stdin: &mut std::io::Stdin) -> Option<Result<String, String>> {
    let mut buf = String::new();
    match stdin.read_line(&mut buf) {
        Ok(0) => None,
        Ok(_) => Some(Ok(buf)),
        Err(e) => Some(Err(e.to_string())),
    }
}

/// Relies on std::io::Write::write_fmt (through `writeln`): writes the
/// line and a terminating newline as one unit.
#[verifier::external_body]
fn write_one_line(stdout: &mut std::io::Stdout, line: &str) -> bool {
    writeln!(stdout, "{}", line).is_ok()
}

/// Relies on std::io::Write::flush: pushes buffered output to the peer.
#[verifier::external_body]
fn flush_output(stdout: &mut std::io::Stdout) -> bool {
    stdout.flush().is_ok()
}

/// The transport adapter: owns the two standard streams exclusively for
/// the session's lifetime, reading and writing one self-contained line per
/// message. What the lines hold is decided elsewhere: the surrounding
/// runtime turns lines into protocol messages and back.
pub struct Io {
    stdin: std::io::Stdin,
    stdout: std::io::Stdout,
}

impl Io {
    /// Claims the process's standard streams for the session.
    pub fn lock() -> Io {
        Io { stdin: acquire_stdin(), stdout: acquire_stdout() }
    }

    /// Writes one message line and flushes it to the peer; false when the
    /// write or the flush failed at the byte level.
    pub fn send(&mut self, line: &str) -> bool {
        let written = write_one_line(&mut self.stdout, line);
        if !written {
            return false;
        }
        flush_output(&mut self.stdout)
    }

    /// Reads one message line. `None`: the peer closed the stream.
    /// `Some(Err(d))`: the read failed at the byte level, `d` says how.
    /// `Some(Ok(line))`: one line, newline included.
    pub fn recv(&mut self) -> Option<Result<String, String>> {
        read_one_line(&mut self.stdin)
    }
}

} // verus!
