//! Identity of the process that owns the focused window.
//!
//! The operating system hands the boundary code a process identifier and,
//! when the process can be opened, the full path of its executable image.
//! This module derives the displayable identity from those plain values:
//! the executable name is the final component of the image path, and a
//! process whose path cannot be read keeps a synthesized `PID <n>`
//! placeholder instead of failing the whole adjustment.

use vstd::prelude::*;
use vstd::string::*;

verus! {

/// No window has keyboard focus, or no owning process could be derived
/// from the focused window.
#[derive(Clone, Copy, Debug, PartialEq, Eq, Structural)]
pub struct NoForegroundWindow;

/// The process that owns the focused top-level window.
pub struct ProcessRef {
    pub process_id: u32,
    /// Final component of the executable path, or the `PID <n>` placeholder.
    pub exe_name: String,
    /// Full image path, when the process could be opened.
    pub exe_path: Option<String>,
}

/// The character standing for decimal digit `d`.
pub open spec fn dec_digit(d: nat) -> char
    recommends
        d < 10,
{
    if d == 0 {
        '0'
    } else if d == 1 {
        '1'
    } else if d == 2 {
        '2'
    } else if d == 3 {
        '3'
    } else if d == 4 {
        '4'
    } else if d == 5 {
        '5'
    } else if d == 6 {
        '6'
    } else if d == 7 {
        '7'
    } else if d == 8 {
        '8'
    } else {
        '9'
    }
}

/// The decimal representation of `n`, most significant digit first.
pub open spec fn dec_rep(n: nat) -> Seq<char>
    decreases n,
{
    if n < 10 {
        seq![dec_digit(n)]
    } else {
        dec_rep(n / 10) + seq![dec_digit(n % 10)]
    }
}

fn digit_to_str(d: u32) -> (r: &'static str)
    requires
        d < 10,
    ensures
        r@ == seq![dec_digit(d as nat)],
{
    let r: &'static str = match d {
        0 => "0",
        1 => "1",
        2 => "2",
        3 => "3",
        4 => "4",
        5 => "5",
        6 => "6",
        7 => "7",
        8 => "8",
        _ => "9",
    };
    proof {
        reveal_strlit("0");
        reveal_strlit("1");
        reveal_strlit("2");
        reveal_strlit("3");
        reveal_strlit("4");
        reveal_strlit("5");
        reveal_strlit("6");
        reveal_strlit("7");
        reveal_strlit("8");
        reveal_strlit("9");
        assert(r@ =~= seq![dec_digit(d as nat)]);
    }
    r
}

/// `n` written in decimal.
pub fn decimal_string(n: u32) -> (r: String)
    ensures
        r@ == dec_rep(n as nat),
    decreases n,
{
    if n < 10 {
        String::from_str(digit_to_str(n))
    } else {
        let mut r = decimal_string(n / 10);
        r.append(digit_to_str(n % 10));
        r
    }
}

/// The stand-in identity of a process whose image path cannot be read.
pub fn pid_placeholder(process_id: u32) -> (r: String)
    ensures
        r@ == "PID "@ + dec_rep(process_id as nat),
{
    let mut r = String::from_str("PID ");
    let digits = decimal_string(process_id);
    r.append(digits.as_str());
    r
}

/// What follows the last backslash of `path`; the whole of `path` when it
/// holds no backslash.
pub open spec fn file_name_of(path: Seq<char>) -> Seq<char>
    decreases path.len(),
{
    if path.len() == 0 {
        path
    } else if path.last() == '\\' {
        Seq::<char>::empty()
    } else {
        file_name_of(path.drop_last()) + seq![path.last()]
    }
}

proof fn lemma_file_name_suffix(path: Seq<char>, cut: int)
    requires
        0 <= cut <= path.len(),
        cut == 0 || path[cut - 1] == '\\',
        forall|k: int| cut <= k < path.len() ==> path[k] != '\\',
    ensures
        file_name_of(path) == path.subrange(cut, path.len() as int),
    decreases path.len(),
{
    if path.len() == 0 {
        assert(file_name_of(path) =~= path.subrange(0, 0));
    } else if path.last() == '\\' {
        assert(cut == path.len());
        assert(file_name_of(path) =~= path.subrange(cut, path.len() as int));
    } else {
        assert(cut < path.len());
        let prefix = path.drop_last();
        lemma_file_name_suffix(prefix, cut);
        assert(file_name_of(path) == prefix.subrange(cut, prefix.len() as int) + seq![path.last()]);
        assert(prefix.subrange(cut, prefix.len() as int) + seq![path.last()] =~= path.subrange(
            cut,
            path.len() as int,
        ));
    }
}

/// The executable name: the final path component of `path`.
pub fn exe_file_name(path: &str) -> (r: String)
    ensures
        r@ == file_name_of(path@),
{
    let n = path.unicode_len();
    let mut cut: usize = 0;
    let mut i: usize = 0;
    while i < n
        invariant
            n == path@.len(),
            cut <= i <= n,
            cut == 0 || path@[cut - 1] == '\\',
            forall|k: int| cut <= k < i ==> path@[k] != '\\',
        decreases n - i,
    {
        if path.get_char(i) == '\\' {
            cut = i + 1;
        }
        i += 1;
    }
    let tail = path.substring_char(cut, n);
    proof {
        lemma_file_name_suffix(path@, cut as int);
    }
    String::from_str(tail)
}

/// The displayable identity of the process `process_id`, given what the
/// platform's image-path lookup returned: the final path component when a
/// path was read, the `PID <n>` placeholder when the process could not be
/// opened.
pub fn resolve_process_info(process_id: u32, image_path: Option<String>) -> (r: ProcessRef)
    ensures
        r.process_id == process_id,
        match image_path {
            Some(p) => r.exe_name@ == file_name_of(p@) && r.exe_path == Some(p),
            None => r.exe_name@ == "PID "@ + dec_rep(process_id as nat) && r.exe_path is None,
        },
{
    match image_path {
        Some(p) => {
            let exe_name = exe_file_name(p.as_str());
            ProcessRef { process_id, exe_name, exe_path: Some(p) }
        },
        None => ProcessRef {
            process_id,
            exe_name: pid_placeholder(process_id),
            exe_path: None,
        },
    }
}

/// Resolution of the foreground application from what the window queries
/// returned: whether a focused top-level window exists, the process
/// identifier derived from it (zero when none could be), and what the
/// image-path lookup gave.  It fails exactly when there is no focused
/// window or no owning process; a failed path lookup alone never aborts
/// the operation — it degrades to the placeholder identity.
pub fn resolve_foreground(
    window_found: bool,
    process_id: u32,
    image_path: Option<String>,
) -> (r: Result<ProcessRef, NoForegroundWindow>)
    ensures
        window_found && process_id != 0 <==> r is Ok,
        match r {
            Ok(p) => p.process_id == process_id && (match image_path {
                Some(path) => p.exe_name@ == file_name_of(path@) && p.exe_path == Some(path),
                None => p.exe_name@ == "PID "@ + dec_rep(process_id as nat) && p.exe_path
                    is None,
            }),
            Err(e) => e == NoForegroundWindow,
        },
{
    if window_found && process_id != 0 {
        Ok(resolve_process_info(process_id, image_path))
    } else {
        Err(NoForegroundWindow)
    }
}

} // verus!
