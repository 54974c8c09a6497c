use engine::shell::{
    macos_info_plist, macos_wflow, reg_escape, windows_reg, xml_escape, ShellConfig, BUNDLE_NAME,
    MENU_LABEL, WIN_VERB,
};
use engine::SUPPORTED_EXTENSIONS;

fn cfg() -> ShellConfig<'static> {
    ShellConfig {
        exe: "/Applications/imgc",
        cap: "500k",
        format: "keep",
        out: None,
    }
}

#[test]
fn windows_reg_registers_every_supported_extension() {
    let reg = windows_reg(&cfg(), true);
    assert!(reg.starts_with("Windows Registry Editor Version 5.00"));
    for ext in SUPPORTED_EXTENSIONS {
        assert!(
            reg.contains(&format!(
                "SystemFileAssociations\\.{ext}\\shell\\{WIN_VERB}"
            )),
            "missing the .{ext} verb key"
        );
    }
    // The command runs `imgc compress … "%1"` with the menu label present.
    assert!(reg.contains("compress --cap 500k --format keep"));
    assert!(
        reg.contains("\\\"%1\\\""),
        "quotes around %1 must be escaped"
    );
    assert!(reg.contains(MENU_LABEL));
}

#[test]
fn windows_uninstall_deletes_the_keys() {
    let reg = windows_reg(&cfg(), false);
    for ext in SUPPORTED_EXTENSIONS {
        assert!(reg.contains(&format!(
            "[-HKEY_CURRENT_USER\\Software\\Classes\\SystemFileAssociations\\.{ext}\\shell\\{WIN_VERB}]"
        )));
    }
    assert!(
        !reg.contains("compress --cap"),
        "uninstall embeds no command"
    );
}

#[test]
fn windows_reg_escapes_a_spaced_exe_path() {
    let exe = String::from("C:\\Program Files\\Image Compressor\\imgc.exe");
    let c = ShellConfig {
        exe: &exe,
        cap: "2mb",
        format: "jpeg",
        out: None,
    };
    let reg = windows_reg(&c, true);
    // Backslashes are doubled and the quoted exe path survives escaping.
    assert!(reg.contains("C:\\\\Program Files\\\\Image Compressor\\\\imgc.exe"));
}

#[test]
fn macos_command_forwards_selected_files() {
    let out = "/tmp/out";
    let c = ShellConfig {
        exe: "/Applications/imgc",
        cap: "1mb",
        format: "jpeg",
        out: Some(out),
    };
    let cmd = c.macos_command();
    assert_eq!(
        cmd,
        "\"/Applications/imgc\" compress --cap 1mb --format jpeg --out \"/tmp/out\" \"$@\""
    );
}

#[test]
fn macos_wflow_embeds_the_xml_escaped_command() {
    let wflow = macos_wflow(&cfg());
    // The quotes in the command are XML-escaped inside the plist string.
    assert!(wflow.contains("&quot;/Applications/imgc&quot; compress --cap 500k"));
    assert!(wflow.contains("com.apple.Automator.servicesMenu"));
    assert!(wflow.contains("/System/Library/Automator/Run Shell Script.action"));
}

#[test]
fn compress_args_list_the_recipe_in_order() {
    let c = ShellConfig {
        exe: "/usr/local/bin/imgc",
        cap: "2mb",
        format: "webp",
        out: Some("/tmp/o"),
    };
    assert_eq!(
        c.compress_args(),
        vec!["compress", "--cap", "2mb", "--format", "webp", "--out", "\"/tmp/o\""]
    );
    assert_eq!(
        cfg().compress_args(),
        vec!["compress", "--cap", "500k", "--format", "keep"]
    );
}

#[test]
fn windows_command_quotes_the_exe_and_the_target() {
    assert_eq!(
        cfg().windows_command(),
        "\"/Applications/imgc\" compress --cap 500k --format keep \"%1\""
    );
}

#[test]
fn reg_escape_doubles_backslashes_and_escapes_quotes() {
    let escaped: String = reg_escape("a\\b\"c").into_iter().collect();
    assert_eq!(escaped, "a\\\\b\\\"c");
    let plain: String = reg_escape("plain").into_iter().collect();
    assert_eq!(plain, "plain");
}

#[test]
fn xml_escape_replaces_the_four_special_characters() {
    let escaped: String = xml_escape("<a & 'b' \"c\">").into_iter().collect();
    assert_eq!(escaped, "&lt;a &amp; 'b' &quot;c&quot;&gt;");
}

#[test]
fn info_plist_names_the_menu_item() {
    let plist = macos_info_plist();
    assert!(plist.starts_with("<?xml"));
    assert!(plist.contains(MENU_LABEL));
    assert!(BUNDLE_NAME.ends_with(".workflow"));
}

#[test]
fn info_plist_registers_a_finder_service_for_images() {
    let plist = macos_info_plist();
    assert!(plist.starts_with("<?xml version=\"1.0\" encoding=\"UTF-8\"?>"));
    assert!(plist.contains("<string>Compress with Image Compressor</string>"));
    assert!(plist.contains("<string>runWorkflowAsService</string>"));
    assert!(plist.contains("<string>com.apple.finder</string>"));
    assert!(plist.contains("<string>public.image</string>"));
    assert!(plist.trim_end().ends_with("</plist>"));
    assert_eq!(plist, macos_info_plist());
}

#[test]
fn install_reg_ends_each_block_with_the_command() {
    let reg = windows_reg(&cfg(), true);
    let blocks = reg.matches("\\shell\\ImageCompressorCompress\\command]").count();
    assert_eq!(blocks, SUPPORTED_EXTENSIONS.len());
}
