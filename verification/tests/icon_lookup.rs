use statusbar::lookup::{fallback_icon_name, DesktopPatterns, IconLookup, LookupStep};

/// Drives a lookup over in-memory files; `links[i]` answers the link lookup of
/// file `i`. `Ok` holds the icon, `Err` the entry without a file name.
fn run(process: &str, files: &[&str], links: &[Option<&str>]) -> Result<String, usize> {
    let patterns = DesktopPatterns::new().expect("the desktop patterns compile");
    let lookup = IconLookup::new(process.to_string(), files.len(), &patterns);
    let mut step = lookup.start();
    let mut reads = 0;
    loop {
        step = match step {
            LookupStep::ReadFile { index } => {
                reads += 1;
                assert!(reads <= files.len());
                lookup.on_file_read(index, files[index].to_string())
            }
            LookupStep::ResolveExec { index, content, program } => {
                assert_eq!(content, files[index]);
                let link = links[index].map(|t| t.to_string());
                lookup.on_exec_resolved(index, content, program, link)
            }
            LookupStep::Finish { icon } => return Ok(icon),
            LookupStep::NoFileName { index } => return Err(index),
        };
    }
}

const FIREFOX: &str = "[Desktop Entry]\nName=Firefox\nExec=/usr/lib/firefox/firefox %u\nIcon=firefox\n";
const KITTY: &str = "[Desktop Entry]\nName=kitty\nIcon=kitty\nExec=kitty\n";
const NOT_AN_ENTRY: &str = "Exec=kitty\nIcon=not-this-one\n";

#[test]
fn fallback_icon_name_is_image_missing() {
    assert_eq!(fallback_icon_name(), "image-missing");
}

#[test]
fn lookup_without_files_uses_fallback() {
    assert_eq!(run("kitty", &[], &[]), Ok("image-missing".to_string()));
}

#[test]
fn lookup_finds_entry_by_program_file_name() {
    let files = [FIREFOX, KITTY];
    assert_eq!(run("kitty", &files, &[None, None]), Ok("kitty".to_string()));
    assert_eq!(run("firefox", &files, &[None, None]), Ok("firefox".to_string()));
}

#[test]
fn lookup_skips_text_without_entry_header() {
    let files = [NOT_AN_ENTRY];
    assert_eq!(run("kitty", &files, &[None]), Ok("image-missing".to_string()));
}

#[test]
fn lookup_takes_the_first_matching_entry() {
    let second = "[Desktop Entry]\nExec=/usr/bin/kitty --single\nIcon=kitty-second\n";
    let files = [NOT_AN_ENTRY, KITTY, second];
    assert_eq!(run("kitty", &files, &[None, None, None]), Ok("kitty".to_string()));
}

#[test]
fn lookup_goes_on_when_matching_entry_names_no_icon() {
    let no_icon = "[Desktop Entry]\nExec=kitty\n";
    let files = [no_icon, KITTY];
    assert_eq!(run("kitty", &files, &[None, None]), Ok("kitty".to_string()));
}

#[test]
fn lookup_uses_fallback_when_nothing_matches() {
    let files = [FIREFOX, KITTY];
    assert_eq!(run("alacritty", &files, &[None, None]), Ok("image-missing".to_string()));
}

#[test]
fn lookup_follows_absolute_link_target() {
    let entry = "[Desktop Entry]\nExec=/usr/bin/code\nIcon=vscode\n";
    let files = [entry];
    assert_eq!(
        run("code-oss", &files, &[Some("/opt/visual-studio-code/code-oss")]),
        Ok("vscode".to_string())
    );
    assert_eq!(
        run("code", &files, &[Some("/opt/visual-studio-code/code-oss")]),
        Ok("image-missing".to_string())
    );
}

#[test]
fn lookup_pushes_relative_link_target_onto_program_path() {
    let entry = "[Desktop Entry]\nExec=/usr/bin/editor\nIcon=editor\n";
    let files = [entry];
    assert_eq!(run("nvim", &files, &[Some("../lib/nvim")]), Ok("editor".to_string()));
}

#[test]
fn lookup_reports_program_path_without_file_name() {
    let entry = "[Desktop Entry]\nExec=/usr/bin/..\nIcon=odd\n";
    let files = [KITTY, entry];
    assert_eq!(run("foot", &files, &[None, None]), Err(1));
}

#[test]
fn program_field_needs_a_non_space_character() {
    let entry = "[Desktop Entry]\nExec= \nExec=foot\nIcon=foot\n";
    assert_eq!(run("foot", &[entry], &[None]), Ok("foot".to_string()));
}

#[test]
fn entry_exec_reads_first_group_only() {
    let patterns = DesktopPatterns::new().unwrap();
    assert_eq!(
        patterns.entry_exec("[Desktop Entry]\nExec=/usr/bin/foot --server\n"),
        Some("/usr/bin/foot".to_string())
    );
    assert_eq!(patterns.entry_exec("Exec=/usr/bin/foot\n"), None);
    assert_eq!(patterns.entry_exec("[Desktop Entry]\nName=foot\n"), None);
}

#[test]
fn entry_icon_reads_icon_field() {
    let patterns = DesktopPatterns::new().unwrap();
    assert_eq!(patterns.entry_icon("Icon=utilities-terminal\n"), Some("utilities-terminal".to_string()));
    assert_eq!(patterns.entry_icon("Name=foot\n"), None);
}

#[test]
fn after_program_name_decides_on_name_and_icon() {
    let patterns = DesktopPatterns::new().unwrap();
    let lookup = IconLookup::new("foot".to_string(), 3, &patterns);
    assert!(matches!(lookup.after_program_name(1, None, None), LookupStep::NoFileName { index: 1 }));
    match lookup.after_program_name(1, Some("foot".to_string()), Some("terminal".to_string())) {
        LookupStep::Finish { icon } => assert_eq!(icon, "terminal"),
        _ => panic!("expected the icon"),
    }
    assert!(matches!(
        lookup.after_program_name(1, Some("foot".to_string()), None),
        LookupStep::ReadFile { index: 2 }
    ));
    assert!(matches!(
        lookup.after_program_name(1, Some("kitty".to_string()), Some("kitty".to_string())),
        LookupStep::ReadFile { index: 2 }
    ));
    match lookup.after_program_name(2, Some("kitty".to_string()), None) {
        LookupStep::Finish { icon } => assert_eq!(icon, "image-missing"),
        _ => panic!("expected the fallback icon"),
    }
}

#[test]
fn after_entry_program_resolves_or_moves_on() {
    let patterns = DesktopPatterns::new().unwrap();
    let lookup = IconLookup::new("foot".to_string(), 2, &patterns);
    match lookup.after_entry_program(0, "text".to_string(), Some("/usr/bin/foot".to_string())) {
        LookupStep::ResolveExec { index, content, program } => {
            assert_eq!(index, 0);
            assert_eq!(content, "text");
            assert_eq!(program, "/usr/bin/foot");
        }
        _ => panic!("expected a link lookup"),
    }
    assert!(matches!(lookup.after_entry_program(0, "text".to_string(), None), LookupStep::ReadFile { index: 1 }));
}
