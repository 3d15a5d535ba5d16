use reina_manager::process::{get_processes_in_directory, PathPart, ProcessEntry};

fn p(parts: &[&str]) -> Vec<PathPart> {
    let mut v = vec![PathPart::Root];
    for s in parts {
        v.push(PathPart::Normal(s.to_string()));
    }
    v
}

fn entry(pid: u32, exe: Vec<PathPart>) -> ProcessEntry {
    ProcessEntry { pid, exe }
}

#[test]
fn processes_in_directory_and_below() {
    let table = vec![
        entry(1, p(&["games", "a", "a.exe"])),
        entry(2, p(&["games", "a", "bin", "child.exe"])),
        entry(3, p(&["games", "ab", "x.exe"])),
        entry(4, p(&["games", "b.exe"])),
        entry(5, Vec::new()),
        entry(6, vec![PathPart::Root]),
        entry(7, p(&["games", "a", "launcher.exe"])),
    ];
    let pids = get_processes_in_directory(&p(&["games", "a", "a.exe"]), &table);
    assert_eq!(pids, vec![1, 2, 7]);
}

#[test]
fn executable_without_parent_finds_nothing() {
    let table = vec![entry(1, p(&["x.exe"]))];
    assert_eq!(get_processes_in_directory(&vec![PathPart::Root], &table), Vec::<u32>::new());
    assert_eq!(get_processes_in_directory(&Vec::new(), &table), Vec::<u32>::new());
}

#[test]
fn prefixes_must_match() {
    let exe = vec![
        PathPart::Prefix("C:".to_string()),
        PathPart::Root,
        PathPart::Normal("g".to_string()),
        PathPart::Normal("g.exe".to_string()),
    ];
    let other_drive = vec![
        PathPart::Prefix("D:".to_string()),
        PathPart::Root,
        PathPart::Normal("g".to_string()),
        PathPart::Normal("g.exe".to_string()),
    ];
    let table = vec![entry(1, other_drive), entry(2, exe.clone())];
    assert_eq!(get_processes_in_directory(&exe, &table), vec![2]);
}
