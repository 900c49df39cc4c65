use termillion::shell::{
    find_powershell, first_existing, get_default_shell, powershell_candidates, Platform,
};
use termillion::utils::{chunk_ranges, get_home_dir, get_parent_dir, normalize_path};

#[test]
fn normalize_path_flips_backslashes() {
    assert_eq!(normalize_path("C:\\Users\\me\\dir"), "C:/Users/me/dir");
    assert_eq!(normalize_path("already/unix/path"), "already/unix/path");
    assert_eq!(normalize_path(""), "");
    assert_eq!(normalize_path("caf\u{e9}\\sub"), "caf\u{e9}/sub");
}

#[test]
fn parent_dir_of_nested_path() {
    assert_eq!(get_parent_dir("a/b/c"), Some("a/b".to_string()));
    assert_eq!(get_parent_dir("/"), None);
    assert_eq!(get_parent_dir(""), None);
}

#[test]
fn home_dir_maps_lookup_result() {
    assert_eq!(get_home_dir(Some("/home/me".to_string())), Ok("/home/me".to_string()));
    assert_eq!(get_home_dir(None), Err("Could not determine home directory".to_string()));
}

#[test]
fn chunk_ranges_tile_the_payload() {
    assert!(chunk_ranges(0).is_empty());
    assert_eq!(chunk_ranges(1), vec![(0, 1)]);
    assert_eq!(chunk_ranges(4096), vec![(0, 4096)]);
    assert_eq!(chunk_ranges(4097), vec![(0, 4096), (4096, 4097)]);
    let r = chunk_ranges(10000);
    assert_eq!(r, vec![(0, 4096), (4096, 8192), (8192, 10000)]);
}

#[test]
fn default_shell_prefers_the_environment() {
    let env = Some("/usr/bin/fish".to_string());
    assert_eq!(get_default_shell(Platform::Linux, env.clone(), None), "/usr/bin/fish");
    assert_eq!(get_default_shell(Platform::Linux, None, None), "bash");
    assert_eq!(get_default_shell(Platform::MacOs, env.clone(), None), "/usr/bin/fish");
    assert_eq!(get_default_shell(Platform::MacOs, None, None), "zsh");
}

#[test]
fn windows_shell_prefers_powershell() {
    let ps = Some("C:/pwsh.exe".to_string());
    assert_eq!(get_default_shell(Platform::Windows, None, ps), "C:/pwsh.exe");
    assert_eq!(get_default_shell(Platform::Windows, None, None), "cmd.exe");
}

#[test]
fn powershell_search_locations_in_order() {
    let c = powershell_candidates("C:\\Program Files", "C:\\Program Files (x86)");
    assert_eq!(
        c,
        vec![
            "C:\\Program Files\\PowerShell\\7\\pwsh.exe".to_string(),
            "C:\\Program Files\\PowerShell\\7-preview\\pwsh.exe".to_string(),
            "C:\\Program Files\\PowerShell\\6\\pwsh.exe".to_string(),
            "C:\\Windows\\System32\\WindowsPowerShell\\v1.0\\powershell.exe".to_string(),
            "C:\\Program Files (x86)\\PowerShell\\powershell.exe".to_string(),
        ]
    );
}

#[test]
fn first_existing_picks_the_earliest_hit() {
    let c = vec!["a".to_string(), "b".to_string(), "c".to_string()];
    assert_eq!(first_existing(&c, &vec![false, true, true]), Some("b".to_string()));
    assert_eq!(first_existing(&c, &vec![false, false, false]), None);
}

#[test]
fn powershell_resolution_order() {
    let pwsh = Some("pwsh".to_string());
    let legacy = Some("powershell".to_string());
    let hit = Some("C:\\x\\pwsh.exe".to_string());
    assert_eq!(find_powershell(pwsh.clone(), legacy.clone(), hit.clone()), Ok("pwsh".to_string()));
    assert_eq!(find_powershell(None, legacy.clone(), hit.clone()), Ok("powershell".to_string()));
    assert_eq!(find_powershell(None, None, hit), Ok("C:\\x\\pwsh.exe".to_string()));
    assert_eq!(find_powershell(None, None, None), Err("PowerShell not found".to_string()));
}
