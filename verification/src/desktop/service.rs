//! What the service was started with: the configuration path and the mount point,
//! read off a launchd property list or a systemd unit.

use vstd::prelude::*;
use crate::affix::{strip_prefix_all, strip_suffix_all, stripped_prefix_all, stripped_suffix_all};
use crate::lines::{lines, seqs, split_lines, texts};
use crate::text::{
    chars_of, has_prefix, has_suffix, is_str, opt_text, str_ends_with, str_starts_with, string_of,
    trim, trimmed,
};

verus! {

/// The argument after the last `--config` among `args[..n]`; `None` where there is no
/// `--config`, and where the last one is the last argument.
pub open spec fn config_argument(args: Seq<Seq<char>>, n: int) -> Option<Seq<char>>
    decreases n,
{
    if n <= 0 {
        None
    } else if args[n - 1] == "--config"@ {
        if n < args.len() {
            Some(args[n])
        } else {
            None
        }
    } else {
        config_argument(args, n - 1)
    }
}

/// The last of `args[..n]` that does not begin with a hyphen.
pub open spec fn last_positional(args: Seq<Seq<char>>, n: int) -> Option<Seq<char>>
    decreases n,
{
    if n <= 0 {
        None
    } else if !has_prefix(args[n - 1], "-"@) {
        Some(args[n - 1])
    } else {
        last_positional(args, n - 1)
    }
}

/// The argument after the last `--config`.
pub fn find_config_argument(args: &Vec<Vec<char>>) -> (r: Option<String>)
    ensures
        opt_text(r) == config_argument(seqs(args@), args.len() as int),
{
    let mut n: usize = args.len();
    while n > 0
        invariant
            n <= args.len(),
            config_argument(seqs(args@), args.len() as int) == config_argument(
                seqs(args@),
                n as int,
            ),
        decreases n,
    {
        if is_str(&args[n - 1], "--config") {
            if n < args.len() {
                return Some(string_of(&args[n]));
            } else {
                return None;
            }
        }
        n -= 1;
    }
    None
}

/// The last argument that does not begin with a hyphen.
pub fn find_last_positional(args: &Vec<Vec<char>>) -> (r: Option<String>)
    ensures
        opt_text(r) == last_positional(seqs(args@), args.len() as int),
{
    let mut n: usize = args.len();
    while n > 0
        invariant
            n <= args.len(),
            last_positional(seqs(args@), args.len() as int) == last_positional(
                seqs(args@),
                n as int,
            ),
        decreases n,
    {
        if !str_starts_with(&args[n - 1], "-") {
            return Some(string_of(&args[n - 1]));
        }
        n -= 1;
    }
    None
}

/// The text between `<string>` and `</string>` of a trimmed line that begins with the
/// one and ends with the other.
pub open spec fn string_element(t: Seq<char>) -> Option<Seq<char>> {
    if has_prefix(t, "<string>"@) && has_suffix(t, "</string>"@) {
        Some(strip_suffix_all(strip_prefix_all(t, "<string>"@), "</string>"@))
    } else {
        None
    }
}

/// The program arguments that the lines `all[from..]` of a property list hold.
/// Arguments are the string elements between the line of the key
/// `ProgramArguments` and the next line that closes the array; `started` says whether
/// the key's line lies before `from`.
pub open spec fn program_arguments(all: Seq<Seq<char>>, from: int, started: bool) -> Seq<
    Seq<char>,
>
    decreases all.len() - from,
{
    if from < 0 || from >= all.len() {
        Seq::empty()
    } else {
        let t = trim(all[from]);
        if !started {
            program_arguments(all, from + 1, t == "<key>ProgramArguments</key>"@)
        } else if t == "</array>"@ {
            Seq::empty()
        } else {
            match string_element(t) {
                Some(arg) => seq![arg] + program_arguments(all, from + 1, true),
                None => program_arguments(all, from + 1, true),
            }
        }
    }
}

/// The program arguments of a launchd property list.
pub fn program_argument_list(plist_content: &str) -> (args: Vec<Vec<char>>)
    ensures
        seqs(args@) == program_arguments(lines(plist_content@), 0, false),
{
    let all = split_lines(&chars_of(plist_content));
    let ghost views = seqs(all@);
    let mut args: Vec<Vec<char>> = Vec::new();
    let mut started = false;
    let mut i: usize = 0;
    assert(seqs(args@) =~= Seq::<Seq<char>>::empty());
    while i < all.len()
        invariant
            i <= all.len(),
            views == seqs(all@),
            views == lines(plist_content@),
            program_arguments(views, 0, false) == seqs(args@) + program_arguments(
                views,
                i as int,
                started,
            ),
        decreases all.len() - i,
    {
        let t = trimmed(&all[i]);
        assert(views[i as int] == all@[i as int]@);
        if !started {
            if is_str(&t, "<key>ProgramArguments</key>") {
                started = true;
            }
        } else if is_str(&t, "</array>") {
            assert(seqs(args@) + Seq::<Seq<char>>::empty() =~= seqs(args@));
            return args;
        } else if str_starts_with(&t, "<string>") && str_ends_with(&t, "</string>") {
            let inner = stripped_suffix_all(&stripped_prefix_all(&t, "<string>"), "</string>");
            let ghost before = seqs(args@);
            args.push(inner);
            assert(seqs(args@) =~= before.push(inner@));
            assert(before + (seq![inner@] + program_arguments(views, i + 1, true)) =~= before.push(
                inner@,
            ) + program_arguments(views, i + 1, true));
        }
        i += 1;
    }
    assert(seqs(args@) + Seq::<Seq<char>>::empty() =~= seqs(args@));
    args
}

/// The configuration path and the mount point that a launchd property list starts
/// the service with: the argument after the last `--config`, and the last argument
/// that is no flag.
pub fn parse_program_arguments(plist_content: &str) -> (r: (Option<String>, Option<String>))
    ensures
        ({
            let args = program_arguments(lines(plist_content@), 0, false);
            &&& opt_text(r.0) == config_argument(args, args.len() as int)
            &&& opt_text(r.1) == last_positional(args, args.len() as int)
        }),
{
    let args = program_argument_list(plist_content);
    (find_config_argument(&args), find_last_positional(&args))
}

/// What `shlex::split` makes of `text`: its words by the rules of a POSIX shell;
/// `None` where a quote or an escape is left open.
pub uninterp spec fn shell_words(text: Seq<char>) -> Option<Seq<Seq<char>>>;

/// The texts of an optional list of strings.
pub open spec fn opt_texts(words: Option<Vec<String>>) -> Option<Seq<Seq<char>>> {
    match words {
        Some(w) => Some(texts(w@)),
        None => None,
    }
}

/// `shlex::split`. The result depends on the text alone.
#[verifier::external_body]
fn split_shell_words(text: &str) -> (r: Option<Vec<String>>)
    ensures
        opt_texts(r) == shell_words(text@),
{
    shlex::split(text)
}

/// The configuration path and the mount point after the lines `all[from..]` of a
/// systemd unit, where `config` and `mountpoint` are what the lines before gave.
///
/// Only lines that begin with `ExecStart=` and whose command splits into words count.
/// Such a line sets the configuration path if it has a `--config` with an argument
/// (or a `--config` as its last word, which unsets it), and always sets the mount
/// point to its last word that is no flag. The first such line whose mount point ends
/// in `jirafs` ends the search.
pub open spec fn exec_start_args(
    all: Seq<Seq<char>>,
    from: int,
    config: Option<Seq<char>>,
    mountpoint: Option<Seq<char>>,
) -> (Option<Seq<char>>, Option<Seq<char>>)
    decreases all.len() - from,
{
    if from < 0 || from >= all.len() {
        (config, mountpoint)
    } else {
        let t = trim(all[from]);
        if !has_prefix(t, "ExecStart="@) {
            exec_start_args(all, from + 1, config, mountpoint)
        } else {
            match shell_words(strip_prefix_all(t, "ExecStart="@)) {
                None => exec_start_args(all, from + 1, config, mountpoint),
                Some(words) => {
                    let next_config = if has_config_flag(words, words.len() as int) {
                        config_argument(words, words.len() as int)
                    } else {
                        config
                    };
                    let next_mount = last_positional(words, words.len() as int);
                    if next_mount is Some && has_suffix(next_mount.unwrap(), "jirafs"@) {
                        (next_config, next_mount)
                    } else {
                        exec_start_args(all, from + 1, next_config, next_mount)
                    }
                },
            }
        }
    }
}

/// Whether one of `words[..n]` is `--config`.
pub open spec fn has_config_flag(words: Seq<Seq<char>>, n: int) -> bool
    decreases n,
{
    if n <= 0 {
        false
    } else {
        words[n - 1] == "--config"@ || has_config_flag(words, n - 1)
    }
}

fn contains_config_flag(words: &Vec<Vec<char>>) -> (r: bool)
    ensures
        r == has_config_flag(seqs(words@), words.len() as int),
{
    let mut n: usize = words.len();
    while n > 0
        invariant
            n <= words.len(),
            has_config_flag(seqs(words@), words.len() as int) == has_config_flag(
                seqs(words@),
                n as int,
            ),
        decreases n,
    {
        if is_str(&words[n - 1], "--config") {
            return true;
        }
        n -= 1;
    }
    false
}

fn word_chars(words: &Vec<String>) -> (r: Vec<Vec<char>>)
    ensures
        seqs(r@) == texts(words@),
{
    let mut r: Vec<Vec<char>> = Vec::new();
    let mut i: usize = 0;
    while i < words.len()
        invariant
            i <= words.len(),
            r.len() == i,
            forall|k: int| 0 <= k < i ==> (#[trigger] r@[k])@ == words@[k]@,
        decreases words.len() - i,
    {
        r.push(chars_of(words[i].as_str()));
        i += 1;
    }
    assert(seqs(r@) =~= texts(words@));
    r
}

/// The configuration path and the mount point that a systemd unit starts the service
/// with.
pub fn parse_exec_start_args(unit_content: &str) -> (r: (Option<String>, Option<String>))
    ensures
        (opt_text(r.0), opt_text(r.1)) == exec_start_args(lines(unit_content@), 0, None, None),
{
    let all = split_lines(&chars_of(unit_content));
    let ghost views = seqs(all@);
    let mut config_path: Option<String> = None;
    let mut mountpoint: Option<String> = None;
    let mut i: usize = 0;
    while i < all.len()
        invariant
            i <= all.len(),
            views == seqs(all@),
            views == lines(unit_content@),
            exec_start_args(views, 0, None, None) == exec_start_args(
                views,
                i as int,
                opt_text(config_path),
                opt_text(mountpoint),
            ),
        decreases all.len() - i,
    {
        let t = trimmed(&all[i]);
        assert(views[i as int] == all@[i as int]@);
        if str_starts_with(&t, "ExecStart=") {
            let value = string_of(&stripped_prefix_all(&t, "ExecStart="));
            match split_shell_words(value.as_str()) {
                Some(tokens) => {
                    let words = word_chars(&tokens);
                    if contains_config_flag(&words) {
                        config_path = find_config_argument(&words);
                    }
                    mountpoint = find_last_positional(&words);
                    let done = match &mountpoint {
                        Some(m) => str_ends_with(&chars_of(m.as_str()), "jirafs"),
                        None => false,
                    };
                    if done {
                        return (config_path, mountpoint);
                    }
                },
                None => {},
            }
        }
        i += 1;
    }
    (config_path, mountpoint)
}

} // verus!
