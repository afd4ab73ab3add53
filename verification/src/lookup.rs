//! Finding the icon of a running program through the desktop entries under
//! the applications directory.
//!
//! The search reads files and asks the file system whether an executable is
//! a symbolic link, so it runs as a conversation: each step names the next
//! piece of outside work (`LookupStep`), and the caller hands back its answer.
use vstd::prelude::*;

use crate::paths::{file_name, path_file_name, push_path, pushed_path};
use crate::pattern::{regex_compiles, regex_first_group, FieldPattern};
use crate::text::{contains_str, has_substring};

verus! {

/// The header that marks a file as a desktop entry.
pub open spec fn entry_header() -> Seq<char> {
    "[Desktop Entry]"@
}

/// The pattern whose first group is the program that an entry runs.
pub open spec fn exec_pattern() -> Seq<char> {
    "Exec=([^\\s]+)"@
}

/// The pattern whose first group is the icon that an entry names.
pub open spec fn icon_pattern() -> Seq<char> {
    "Icon=([^\\s]+)"@
}

/// The icon used when no desktop entry names one for the program.
pub open spec fn fallback_icon() -> Seq<char> {
    "image-missing"@
}

/// The name of the icon used when no desktop entry names one.
pub fn fallback_icon_name() -> (s: String)
    ensures
        s@ == fallback_icon(),
{
    String::from_str("image-missing")
}

/// The fields are read with exactly these patterns: a desktop entry is a
/// text holding `[Desktop Entry]`, its program is the run of non-whitespace
/// characters after `Exec=`, its icon the run of non-whitespace characters
/// after `Icon=`, and the fallback icon is `image-missing`.
pub proof fn lemma_entry_patterns()
    ensures
        entry_header() == "[Desktop Entry]"@,
        exec_pattern() == "Exec=([^\\s]+)"@,
        icon_pattern() == "Icon=([^\\s]+)"@,
        fallback_icon() == "image-missing"@,
{
}

/// The program that a file's text runs, if the text is a desktop entry with
/// an `Exec=` field.
pub open spec fn entry_exec(content: Seq<char>) -> Option<Seq<char>> {
    if has_substring(content, entry_header()) {
        regex_first_group(exec_pattern(), content)
    } else {
        None
    }
}

/// The icon that a file's text names in its `Icon=` field.
pub open spec fn entry_icon(content: Seq<char>) -> Option<Seq<char>> {
    regex_first_group(icon_pattern(), content)
}

/// The file name of the program path, after following a symbolic link whose
/// target is `link`: the target is pushed onto the program path.
pub open spec fn resolved_name(program: Seq<char>, link: Option<Seq<char>>) -> Option<Seq<char>> {
    match link {
        Some(target) => path_file_name(pushed_path(program, target)),
        None => path_file_name(program),
    }
}

/// The two compiled patterns that read a desktop entry.
pub struct DesktopPatterns {
    program: FieldPattern,
    icon: FieldPattern,
}

impl DesktopPatterns {
    #[verifier::type_invariant]
    spec fn inv(self) -> bool {
        self.program@ == exec_pattern() && self.icon@ == icon_pattern()
    }

    /// Compiles the `Exec=` and `Icon=` patterns.
    pub fn new() -> (res: Option<DesktopPatterns>)
        ensures
            res is Some <==> regex_compiles(exec_pattern()) && regex_compiles(icon_pattern()),
    {
        let program = FieldPattern::compile("Exec=([^\\s]+)");
        let icon = FieldPattern::compile("Icon=([^\\s]+)");
        match (program, icon) {
            (Some(program), Some(icon)) => Some(DesktopPatterns { program, icon }),
            _ => None,
        }
    }

    /// The program that `content` runs, if it is a desktop entry.
    pub fn entry_exec(&self, content: &str) -> (res: Option<String>)
        ensures
            res.deep_view() == entry_exec(content@),
            has_substring(content@, "[Desktop Entry]"@) ==> res.deep_view() == regex_first_group(
                "Exec=([^\\s]+)"@,
                content@,
            ),
            !has_substring(content@, "[Desktop Entry]"@) ==> res is None,
    {
        proof {
            use_type_invariant(self);
        }
        if contains_str(content, "[Desktop Entry]") {
            self.program.first_group(content)
        } else {
            None
        }
    }

    /// The icon that `content` names.
    pub fn entry_icon(&self, content: &str) -> (res: Option<String>)
        ensures
            res.deep_view() == entry_icon(content@),
            res.deep_view() == regex_first_group("Icon=([^\\s]+)"@, content@),
    {
        proof {
            use_type_invariant(self);
        }
        self.icon.first_group(content)
    }
}

/// The next piece of work in a lookup.
pub enum LookupStep {
    /// Read the file at this position of the directory listing as UTF-8 text.
    ReadFile { index: usize },
    /// Find out whether the path `program` is a symbolic link and, if it is,
    /// read its target; the entry's text is carried along.
    ResolveExec { index: usize, content: String, program: String },
    /// The lookup is over: this is the icon's name.
    Finish { icon: String },
    /// The entry at this position runs a program whose path has no file name.
    NoFileName { index: usize },
}

/// A `LookupStep` with its texts as character sequences.
pub enum StepView {
    ReadFile(nat),
    ResolveExec(nat, Seq<char>, Seq<char>),
    Finish(Seq<char>),
    NoFileName(nat),
}

impl View for LookupStep {
    type V = StepView;

    open spec fn view(&self) -> StepView {
        match self {
            LookupStep::ReadFile { index } => StepView::ReadFile(*index as nat),
            LookupStep::ResolveExec { index, content, program } => StepView::ResolveExec(
                *index as nat,
                content@,
                program@,
            ),
            LookupStep::Finish { icon } => StepView::Finish(icon@),
            LookupStep::NoFileName { index } => StepView::NoFileName(*index as nat),
        }
    }
}

/// Go on with the file at `next`, or finish with the fallback icon when
/// there is none.
pub open spec fn advance(next: nat, count: nat) -> StepView {
    if next < count {
        StepView::ReadFile(next)
    } else {
        StepView::Finish(fallback_icon())
    }
}

/// The step after file `index` of `count`, whose text is `content`, has
/// been read and `program` is the program it runs as a desktop entry.
pub open spec fn after_program(
    count: nat,
    index: nat,
    content: Seq<char>,
    program: Option<Seq<char>>,
) -> StepView {
    match program {
        Some(program) => StepView::ResolveExec(index, content, program),
        None => advance(index + 1, count),
    }
}

/// The step after file `index` of `count` has been read as `content`.
pub open spec fn after_read(count: nat, index: nat, content: Seq<char>) -> StepView {
    after_program(count, index, content, entry_exec(content))
}

/// The step after the program of entry `index` of `count`, with its link
/// followed, has been found to have the file name `name` (`None`: it has
/// none); `icon` is the icon the entry names. A program of another name than
/// `process` goes on to the next file, whatever `icon` is.
pub open spec fn after_name(
    process: Seq<char>,
    count: nat,
    index: nat,
    name: Option<Seq<char>>,
    icon: Option<Seq<char>>,
) -> StepView {
    match name {
        None => StepView::NoFileName(index),
        Some(name) => if name == process && icon is Some {
            StepView::Finish(icon.unwrap())
        } else {
            advance(index + 1, count)
        },
    }
}

/// The step after the program path `program` of entry `index`, whose text
/// is `content`, has been looked at for a symbolic link, with `link` its
/// target if it is one.
pub open spec fn after_resolve(
    process: Seq<char>,
    count: nat,
    index: nat,
    content: Seq<char>,
    program: Seq<char>,
    link: Option<Seq<char>>,
) -> StepView {
    after_name(process, count, index, resolved_name(program, link), entry_icon(content))
}

/// After the link lookup of an entry's program answers with a target, the
/// name compared with the process is the file name of the program path with
/// that target pushed on, whatever the target holds; with no link it is the
/// file name of the program path itself.
pub proof fn lemma_resolved_name(program: Seq<char>, target: Seq<char>)
    ensures
        resolved_name(program, Some(target)) == path_file_name(pushed_path(program, target)),
        resolved_name(program, None) == path_file_name(program),
{
}

/// An entry whose program has no file name stops the lookup there; one whose
/// program has the process's name and which names an icon ends it with that
/// icon; any other entry passes the lookup on to the next file, or to the
/// fallback icon after the last one.
pub proof fn lemma_after_name(
    process: Seq<char>,
    count: nat,
    index: nat,
    name: Option<Seq<char>>,
    icon: Option<Seq<char>>,
)
    requires
        index < count,
    ensures
        name is None ==> after_name(process, count, index, name, icon) == StepView::NoFileName(
            index,
        ),
        name == Some(process) && icon is Some ==> after_name(process, count, index, name, icon)
            == StepView::Finish(icon.unwrap()),
        name is Some && (name != Some(process) || icon is None) && index + 1 < count
            ==> after_name(process, count, index, name, icon) == StepView::ReadFile(index + 1),
        name is Some && (name != Some(process) || icon is None) && index + 1 == count
            ==> after_name(process, count, index, name, icon) == StepView::Finish(
            "image-missing"@,
        ),
{
}

/// The outcome of a search that starts at file `i`: the icon of the first
/// desktop entry from `i` on whose program, after following its link, has
/// the file name `process` and which names an icon; the fallback icon when
/// there is none; or `NoFileName` at the first entry on the way whose program
/// path has no file name. `links[j]` is the link target found for entry `j`.
pub open spec fn first_icon(
    process: Seq<char>,
    contents: Seq<Seq<char>>,
    links: Seq<Option<Seq<char>>>,
    i: nat,
) -> StepView
    decreases contents.len() - i,
{
    if i >= contents.len() {
        StepView::Finish(fallback_icon())
    } else {
        match entry_exec(contents[i as int]) {
            None => first_icon(process, contents, links, i + 1),
            Some(program) => match resolved_name(program, links[i as int]) {
                None => StepView::NoFileName(i),
                Some(name) => if name == process && entry_icon(contents[i as int]) is Some {
                    StepView::Finish(entry_icon(contents[i as int]).unwrap())
                } else {
                    first_icon(process, contents, links, i + 1)
                },
            },
        }
    }
}

/// How much of a search is left after `step`, with `count` files in all.
pub open spec fn steps_left(step: StepView, count: nat) -> nat {
    match step {
        StepView::ReadFile(i) => if i < count {
            (2 * (count - i)) as nat
        } else {
            0
        },
        StepView::ResolveExec(i, _, _) => if i < count {
            (2 * (count - i) - 1) as nat
        } else {
            0
        },
        _ => 0,
    }
}

/// Every step of a lookup brings it closer to its end: reading file `i`
/// leads to the link lookup of that same entry or on to file `i + 1`, and a
/// link lookup leads on to file `i + 1` or ends the lookup. So a lookup over
/// `count` files reads each file at most once, in order, and ends after at
/// most `2 * count` answers.
pub proof fn lemma_lookup_steps_shrink(
    process: Seq<char>,
    count: nat,
    index: nat,
    content: Seq<char>,
    program: Seq<char>,
    link: Option<Seq<char>>,
)
    requires
        index < count,
    ensures
        steps_left(after_read(count, index, content), count) < steps_left(
            StepView::ReadFile(index),
            count,
        ),
        steps_left(after_resolve(process, count, index, content, program, link), count)
            < steps_left(StepView::ResolveExec(index, content, program), count),
        steps_left(advance(0, count), count) <= 2 * count,
{
}

/// Where the steps of a lookup lead from `step` when the file at position
/// `j` reads as `contents[j]` and the link lookup of its program answers
/// `links[j]`.
pub open spec fn drive(
    process: Seq<char>,
    contents: Seq<Seq<char>>,
    links: Seq<Option<Seq<char>>>,
    step: StepView,
) -> StepView
    decreases steps_left(step, contents.len()),
{
    match step {
        StepView::ReadFile(i) => if i < contents.len() {
            drive(process, contents, links, after_read(contents.len(), i, contents[i as int]))
        } else {
            step
        },
        StepView::ResolveExec(i, content, program) => if i < contents.len() {
            drive(
                process,
                contents,
                links,
                after_resolve(process, contents.len(), i, content, program, links[i as int]),
            )
        } else {
            step
        },
        _ => step,
    }
}

proof fn lemma_drive_from(
    process: Seq<char>,
    contents: Seq<Seq<char>>,
    links: Seq<Option<Seq<char>>>,
    i: nat,
)
    requires
        links.len() == contents.len(),
        i <= contents.len(),
    ensures
        drive(process, contents, links, advance(i, contents.len())) == first_icon(
            process,
            contents,
            links,
            i,
        ),
    decreases contents.len() - i,
{
    let n = contents.len();
    if i < n {
        lemma_drive_from(process, contents, links, i + 1);
        let content = contents[i as int];
        match entry_exec(content) {
            None => {},
            Some(program) => {
                let resolving = StepView::ResolveExec(i, content, program);
                assert(drive(process, contents, links, resolving) == drive(
                    process,
                    contents,
                    links,
                    after_resolve(process, n, i, content, program, links[i as int]),
                ));
            },
        }
    }
}

/// Fed the files' texts in order, and for each desktop entry the answer of
/// the link lookup of its program, the lookup ends exactly where the search for the first
/// matching entry ends: at that entry's icon, at the fallback icon when no
/// entry matches, or at the first entry on the way whose program path has no
/// file name.
pub proof fn lemma_lookup_finds_first_match(
    process: Seq<char>,
    contents: Seq<Seq<char>>,
    links: Seq<Option<Seq<char>>>,
)
    requires
        links.len() == contents.len(),
    ensures
        drive(process, contents, links, advance(0, contents.len())) == first_icon(
            process,
            contents,
            links,
            0,
        ),
{
    lemma_drive_from(process, contents, links, 0);
}

/// A lookup of the icon of the program named `process_name` among
/// `file_count` files.
pub struct IconLookup<'a> {
    process_name: String,
    file_count: usize,
    patterns: &'a DesktopPatterns,
}

impl<'a> IconLookup<'a> {
    pub closed spec fn process(&self) -> Seq<char> {
        self.process_name@
    }

    pub closed spec fn count(&self) -> nat {
        self.file_count as nat
    }

    pub fn new(process_name: String, file_count: usize, patterns: &'a DesktopPatterns) -> (res:
        IconLookup<'a>)
        ensures
            res.process() == process_name@,
            res.count() == file_count,
    {
        IconLookup { process_name, file_count, patterns }
    }

    /// The number of files the lookup goes through.
    pub fn file_count(&self) -> (res: usize)
        ensures
            res == self.count(),
    {
        self.file_count
    }

    /// The first step: the first file, or the fallback icon when there are
    /// no files.
    pub fn start(&self) -> (res: LookupStep)
        ensures
            res@ == advance(0, self.count()),
    {
        if 0 < self.file_count {
            LookupStep::ReadFile { index: 0 }
        } else {
            LookupStep::Finish { icon: fallback_icon_name() }
        }
    }

    fn advance(&self, next: usize) -> (res: LookupStep)
        ensures
            res@ == advance(next as nat, self.count()),
    {
        if next < self.file_count {
            LookupStep::ReadFile { index: next }
        } else {
            LookupStep::Finish { icon: fallback_icon_name() }
        }
    }

    /// The step after file `index`, whose text is `content`, has been read
    /// and found to run `program` as a desktop entry (`None`: it is no entry,
    /// or names no program).
    pub fn after_entry_program(&self, index: usize, content: String, program: Option<String>) -> (res:
        LookupStep)
        requires
            index < self.count(),
        ensures
            res@ == after_program(self.count(), index as nat, content@, program.deep_view()),
    {
        match program {
            Some(program) => LookupStep::ResolveExec { index, content, program },
            None => self.advance(index + 1),
        }
    }

    /// The step after file `index` has been read as `content`.
    pub fn on_file_read(&self, index: usize, content: String) -> (res: LookupStep)
        requires
            index < self.count(),
        ensures
            res@ == after_read(self.count(), index as nat, content@),
    {
        let program = self.patterns.entry_exec(content.as_str());
        self.after_entry_program(index, content, program)
    }

    /// The step after the program of entry `index`, its link followed, has
    /// been found to have the file name `name`, with `icon` the icon the
    /// entry names; `icon` is only consulted when `name` is the process name.
    pub fn after_program_name(&self, index: usize, name: Option<String>, icon: Option<String>) -> (res:
        LookupStep)
        requires
            index < self.count(),
        ensures
            res@ == after_name(
                self.process(),
                self.count(),
                index as nat,
                name.deep_view(),
                icon.deep_view(),
            ),
    {
        match name {
            None => LookupStep::NoFileName { index },
            Some(name) => {
                if name == self.process_name {
                    match icon {
                        Some(icon) => LookupStep::Finish { icon },
                        None => self.advance(index + 1),
                    }
                } else {
                    self.advance(index + 1)
                }
            },
        }
    }

    /// The step after the program path `program` of entry `index` has been
    /// looked at for a symbolic link; `link` is its target if it is one.
    pub fn on_exec_resolved(
        &self,
        index: usize,
        content: String,
        program: String,
        link: Option<String>,
    ) -> (res: LookupStep)
        requires
            index < self.count(),
        ensures
            res@ == after_resolve(
                self.process(),
                self.count(),
                index as nat,
                content@,
                program@,
                link.deep_view(),
            ),
            link.deep_view() matches Some(target) ==> res@ == after_name(
                self.process(),
                self.count(),
                index as nat,
                path_file_name(pushed_path(program@, target)),
                regex_first_group("Icon=([^\\s]+)"@, content@),
            ),
            link is None ==> res@ == after_name(
                self.process(),
                self.count(),
                index as nat,
                path_file_name(program@),
                regex_first_group("Icon=([^\\s]+)"@, content@),
            ),
    {
        let resolved = match &link {
            Some(target) => push_path(program.as_str(), target.as_str()),
            None => program,
        };
        let name = file_name(resolved.as_str());
        let same_program = match &name {
            Some(name) => *name == self.process_name,
            None => false,
        };
        let icon = if same_program {
            self.patterns.entry_icon(content.as_str())
        } else {
            None
        };
        self.after_program_name(index, name, icon)
    }
}

} // verus!
