//! OS right-click "Compress with Image Compressor" integration. Two per-OS targets:
//!
//! - **macOS**: a Finder Quick Action (Automator *Service*) installed under
//!   `~/Library/Services`, whose Run Shell Script action hands the selected files to `imgc compress`.
//! - **Windows**: `SystemFileAssociations\.<ext>\shell` registry entries (per supported extension)
//!   whose `command` runs `imgc compress … "%1"`.
//!
//! Everything that builds the integration text (the `.reg` body, the Info.plist, the workflow plist)
//! lives here; only installing and removing the bundle touches the filesystem, which the caller does.
use vstd::prelude::*;
use crate::batch::SUPPORTED_EXTENSIONS;
use crate::text::{chars_of, push_all, push_str, string_of};

verus! {

/// Menu label shown in Finder / Explorer.
pub const MENU_LABEL: &'static str = "Compress with Image Compressor";

/// The macOS Quick Action bundle directory name.
pub const BUNDLE_NAME: &'static str = "Compress with Image Compressor.workflow";

/// Registry key leaf used for the Windows verb (stable id so uninstall can find it).
pub const WIN_VERB: &'static str = "ImageCompressorCompress";

/// The registry path under which each extension's verb lives.
pub const REG_CLASSES: &'static str = "HKEY_CURRENT_USER\\Software\\Classes\\SystemFileAssociations\\.";

/// The first line of a `.reg` file, followed by a blank line.
pub const REG_HEADER: &'static str = "Windows Registry Editor Version 5.00\r\n\r\n";

/// The Service registration plist up to the menu label.
pub const INFO_PLIST_HEAD: &'static str = r#"<?xml version="1.0" encoding="UTF-8"?>
<!DOCTYPE plist PUBLIC "-//Apple//DTD PLIST 1.0//EN" "http://www.apple.com/DTDs/PropertyList-1.0.dtd">
<plist version="1.0">
<dict>
	<key>NSServices</key>
	<array>
		<dict>
			<key>NSMenuItem</key>
			<dict>
				<key>default</key>
				<string>"#;

/// The Service registration plist after the menu label.
pub const INFO_PLIST_TAIL: &'static str = r#"</string>
			</dict>
			<key>NSMessage</key>
			<string>runWorkflowAsService</string>
			<key>NSRequiredContext</key>
			<dict>
				<key>NSApplicationIdentifier</key>
				<string>com.apple.finder</string>
			</dict>
			<key>NSSendFileTypes</key>
			<array>
				<string>public.image</string>
			</array>
		</dict>
	</array>
</dict>
</plist>
"#;

/// The Automator workflow document up to the shell command.
pub const WFLOW_HEAD: &'static str = r#"<?xml version="1.0" encoding="UTF-8"?>
<!DOCTYPE plist PUBLIC "-//Apple//DTD PLIST 1.0//EN" "http://www.apple.com/DTDs/PropertyList-1.0.dtd">
<plist version="1.0">
<dict>
	<key>AMApplicationBuild</key>
	<string>521</string>
	<key>AMApplicationVersion</key>
	<string>2.10</string>
	<key>AMDocumentVersion</key>
	<string>2</string>
	<key>actions</key>
	<array>
		<dict>
			<key>action</key>
			<dict>
				<key>AMAccepts</key>
				<dict>
					<key>Container</key>
					<string>List</string>
					<key>Optional</key>
					<true/>
					<key>Types</key>
					<array>
						<string>com.apple.cocoa.string</string>
					</array>
				</dict>
				<key>AMActionVersion</key>
				<string>2.0.3</string>
				<key>AMApplication</key>
				<array>
					<string>Automator</string>
				</array>
				<key>AMProvides</key>
				<dict>
					<key>Container</key>
					<string>List</string>
					<key>Types</key>
					<array>
						<string>com.apple.cocoa.string</string>
					</array>
				</dict>
				<key>ActionBundlePath</key>
				<string>/System/Library/Automator/Run Shell Script.action</string>
				<key>ActionName</key>
				<string>Run Shell Script</string>
				<key>ActionParameters</key>
				<dict>
					<key>COMMAND_STRING</key>
					<string>"#;

/// The Automator workflow document after the shell command.
pub const WFLOW_TAIL: &'static str = r#"</string>
					<key>CheckedForUserDefaultShell</key>
					<true/>
					<key>inputMethod</key>
					<integer>1</integer>
					<key>shell</key>
					<string>/bin/zsh</string>
					<key>source</key>
					<string></string>
				</dict>
				<key>BundleIdentifier</key>
				<string>com.apple.Automator.RunShellScript</string>
				<key>CFBundleVersion</key>
				<string>2.0.3</string>
				<key>CanShowSelectedItemsWhenRun</key>
				<false/>
				<key>CanShowWhenRun</key>
				<true/>
				<key>Category</key>
				<array>
					<string>AMCategoryUtilities</string>
				</array>
				<key>Class Name</key>
				<string>RunShellScriptAction</string>
				<key>InputUUID</key>
				<string>4F1B7C2A-0001-4A10-9F00-IMAGECOMPRESS</string>
				<key>Keywords</key>
				<array>
					<string>Shell</string>
				</array>
				<key>OutputUUID</key>
				<string>4F1B7C2A-0002-4A10-9F00-IMAGECOMPRESS</string>
				<key>UUID</key>
				<string>4F1B7C2A-0003-4A10-9F00-IMAGECOMPRESS</string>
				<key>UnlocalizedApplications</key>
				<array>
					<string>Automator</string>
				</array>
				<key>arguments</key>
				<dict/>
				<key>isViewVisible</key>
				<integer>1</integer>
				<key>location</key>
				<string>309.000000:253.000000</string>
				<key>nibPath</key>
				<string>/System/Library/Automator/Run Shell Script.action/Contents/Resources/main.nib</string>
			</dict>
			<key>isViewVisible</key>
			<integer>1</integer>
		</dict>
	</array>
	<key>connectors</key>
	<dict/>
	<key>workflowMetaData</key>
	<dict>
		<key>applicationBundleIDsByPath</key>
		<dict/>
		<key>applicationPaths</key>
		<array/>
		<key>inputTypeIdentifier</key>
		<string>com.apple.Automator.fileSystemObject.image</string>
		<key>outputTypeIdentifier</key>
		<string>com.apple.Automator.nothing</string>
		<key>presentationMode</key>
		<integer>11</integer>
		<key>processesInput</key>
		<integer>0</integer>
		<key>serviceApplicationBundleID</key>
		<string>com.apple.finder</string>
		<key>serviceApplicationPath</key>
		<string>/System/Library/CoreServices/Finder.app</string>
		<key>serviceInputTypeIdentifier</key>
		<string>com.apple.Automator.fileSystemObject.image</string>
		<key>serviceOutputTypeIdentifier</key>
		<string>com.apple.Automator.nothing</string>
		<key>serviceProcessesInput</key>
		<integer>0</integer>
		<key>systemImageName</key>
		<string>NSActionTemplate</string>
		<key>useAutomaticInputType</key>
		<integer>0</integer>
		<key>workflowTypeIdentifier</key>
		<string>com.apple.Automator.servicesMenu</string>
	</dict>
</dict>
</plist>
"#;

/// The compression recipe the context menu applies, plus the resolved `imgc` path.
pub struct ShellConfig<'a> {
    pub exe: &'a str,
    pub cap: &'a str,
    pub format: &'a str,
    pub out: Option<&'a str>,
}

/// `s` in double quotes.
pub open spec fn quoted(s: Seq<char>) -> Seq<char> {
    seq!['"'] + s + seq!['"']
}

/// The shared middle of the command line: `compress --cap <cap> --format <format> [--out "<o>"]`.
pub open spec fn compress_args_of(cfg: ShellConfig) -> Seq<Seq<char>> {
    let base = seq!["compress"@, "--cap"@, cfg.cap@, "--format"@, cfg.format@];
    match cfg.out {
        Some(out) => base + seq!["--out"@, quoted(out@)],
        None => base,
    }
}

/// Each argument preceded by one space, all run together.
pub open spec fn spaced(args: Seq<Seq<char>>) -> Seq<char>
    decreases args.len(),
{
    if args.len() == 0 {
        seq![]
    } else {
        spaced(args.drop_last()) + seq![' '] + args.last()
    }
}

/// The quoted executable, the arguments, then `tail`.
pub open spec fn command_line(cfg: ShellConfig, tail: Seq<char>) -> Seq<char> {
    quoted(cfg.exe@) + spaced(compress_args_of(cfg)) + tail
}

/// The Windows command line, ending in the `"%1"` per-file placeholder.
pub open spec fn windows_command_of(cfg: ShellConfig) -> Seq<char> {
    command_line(cfg, " \"%1\""@)
}

/// The macOS shell-script body, ending in `"$@"` (Automator passes selected files as arguments).
pub open spec fn macos_command_of(cfg: ShellConfig) -> Seq<char> {
    command_line(cfg, " \"$@\""@)
}

/// `s` with backslashes and double quotes escaped by a backslash (a `.reg` string value).
pub open spec fn reg_escaped(s: Seq<char>) -> Seq<char>
    decreases s.len(),
{
    if s.len() == 0 {
        seq![]
    } else {
        reg_escaped(s.drop_last()) + if s.last() == '\\' {
            seq!['\\', '\\']
        } else if s.last() == '"' {
            seq!['\\', '"']
        } else {
            seq![s.last()]
        }
    }
}

/// `s` with `&`, `<`, `>` and `"` replaced by their XML entities.
pub open spec fn xml_escaped(s: Seq<char>) -> Seq<char>
    decreases s.len(),
{
    if s.len() == 0 {
        seq![]
    } else {
        xml_escaped(s.drop_last()) + if s.last() == '&' {
            "&amp;"@
        } else if s.last() == '<' {
            "&lt;"@
        } else if s.last() == '>' {
            "&gt;"@
        } else if s.last() == '"' {
            "&quot;"@
        } else {
            seq![s.last()]
        }
    }
}

/// The registry key of the verb for one extension.
pub open spec fn reg_key(ext: Seq<char>) -> Seq<char> {
    REG_CLASSES@ + ext + "\\shell\\"@ + WIN_VERB@
}

/// One extension's block of the `.reg` file: the verb key with its label and icon and the command
/// subkey when installing, or the removal of the verb key when uninstalling.
pub open spec fn reg_block(ext: Seq<char>, install: bool, command: Seq<char>, icon: Seq<char>) -> Seq<char> {
    if install {
        "["@ + reg_key(ext) + "]\r\n"@ + "@=\""@ + reg_escaped(MENU_LABEL@) + "\"\r\n"@
            + "\"Icon\"=\""@ + icon + "\"\r\n\r\n"@ + "["@ + reg_key(ext) + "\\command]\r\n"@
            + "@=\""@ + command + "\"\r\n\r\n"@
    } else {
        "[-"@ + reg_key(ext) + "]\r\n\r\n"@
    }
}

/// The blocks of the first `n` supported extensions, in order.
pub open spec fn reg_blocks(n: nat, install: bool, command: Seq<char>, icon: Seq<char>) -> Seq<char>
    decreases n,
{
    if n == 0 {
        seq![]
    } else {
        reg_blocks((n - 1) as nat, install, command, icon) + reg_block(
            SUPPORTED_EXTENSIONS[n - 1]@,
            install,
            command,
            icon,
        )
    }
}

/// The whole `.reg` body.
pub open spec fn windows_reg_of(cfg: ShellConfig, install: bool) -> Seq<char> {
    REG_HEADER@ + reg_blocks(
        6,
        install,
        reg_escaped(windows_command_of(cfg)),
        reg_escaped(cfg.exe@),
    )
}

fn push_quoted(out: &mut Vec<char>, s: &str)
    ensures
        final(out)@ == old(out)@ + quoted(s@),
{
    out.push('"');
    push_str(out, s);
    out.push('"');
    assert(final(out)@ =~= old(out)@ + quoted(s@));
}

impl ShellConfig<'_> {
    /// The shared middle of the command line: `compress --cap <cap> --format <format> [--out "<o>"]`.
    pub fn compress_args(&self) -> (r: Vec<String>)
        ensures
            r@.len() == compress_args_of(*self).len(),
            forall|i: int| 0 <= i < r@.len() ==> (#[trigger] r@[i])@ == compress_args_of(*self)[i],
    {
        let mut args: Vec<String> = Vec::new();
        args.push("compress".to_owned());
        args.push("--cap".to_owned());
        args.push(self.cap.to_owned());
        args.push("--format".to_owned());
        args.push(self.format.to_owned());
        match self.out {
            Some(out) => {
                args.push("--out".to_owned());
                let mut q: Vec<char> = Vec::new();
                push_quoted(&mut q, out);
                args.push(string_of(&q));
            },
            None => {},
        }
        args
    }

    fn command_with_tail(&self, tail: &str) -> (r: String)
        ensures
            r@ == command_line(*self, tail@),
    {
        let mut line: Vec<char> = Vec::new();
        push_quoted(&mut line, self.exe);
        let args = self.compress_args();
        let ghost all = compress_args_of(*self);
        let ghost head = line@;
        let mut i: usize = 0;
        while i < args.len()
            invariant
                i <= args@.len(),
                args@.len() == all.len(),
                all == compress_args_of(*self),
                forall|k: int| 0 <= k < args@.len() ==> (#[trigger] args@[k])@ == all[k],
                line@ == head + spaced(all.take(i as int)),
            decreases args@.len() - i,
        {
            line.push(' ');
            push_str(&mut line, args[i].as_str());
            assert(all.take(i + 1).drop_last() =~= all.take(i as int));
            assert(line@ =~= head + spaced(all.take(i + 1)));
            i = i + 1;
        }
        assert(all.take(args@.len() as int) =~= all);
        push_str(&mut line, tail);
        string_of(&line)
    }

    /// Full Windows command line, ending in the `"%1"` per-file placeholder.
    pub fn windows_command(&self) -> (r: String)
        ensures
            r@ == windows_command_of(*self),
    {
        self.command_with_tail(" \"%1\"")
    }

    /// Full macOS shell-script body, ending in `"$@"` (Automator passes selected files as arguments).
    pub fn macos_command(&self) -> (r: String)
        ensures
            r@ == macos_command_of(*self),
    {
        self.command_with_tail(" \"$@\"")
    }
}

/// Escape a string for a `.reg` double-quoted value (backslash and quote).
pub fn reg_escape(s: &str) -> (r: Vec<char>)
    ensures
        r@ == reg_escaped(s@),
{
    let c = chars_of(s);
    let mut out: Vec<char> = Vec::new();
    let mut i: usize = 0;
    while i < c.len()
        invariant
            c@ == s@,
            i <= c@.len(),
            out@ == reg_escaped(c@.take(i as int)),
        decreases c@.len() - i,
    {
        let ch = c[i];
        if ch == '\\' {
            out.push('\\');
            out.push('\\');
        } else if ch == '"' {
            out.push('\\');
            out.push('"');
        } else {
            out.push(ch);
        }
        assert(c@.take(i + 1).drop_last() =~= c@.take(i as int));
        assert(out@ =~= reg_escaped(c@.take(i + 1)));
        i = i + 1;
    }
    assert(c@.take(c@.len() as int) =~= c@);
    out
}

/// Escape a string for XML text/attribute content in a plist.
pub fn xml_escape(s: &str) -> (r: Vec<char>)
    ensures
        r@ == xml_escaped(s@),
{
    let c = chars_of(s);
    let mut out: Vec<char> = Vec::new();
    let mut i: usize = 0;
    while i < c.len()
        invariant
            c@ == s@,
            i <= c@.len(),
            out@ == xml_escaped(c@.take(i as int)),
        decreases c@.len() - i,
    {
        let ch = c[i];
        if ch == '&' {
            push_str(&mut out, "&amp;");
        } else if ch == '<' {
            push_str(&mut out, "&lt;");
        } else if ch == '>' {
            push_str(&mut out, "&gt;");
        } else if ch == '"' {
            push_str(&mut out, "&quot;");
        } else {
            out.push(ch);
        }
        assert(c@.take(i + 1).drop_last() =~= c@.take(i as int));
        assert(out@ =~= xml_escaped(c@.take(i + 1)));
        i = i + 1;
    }
    assert(c@.take(c@.len() as int) =~= c@);
    out
}

fn push_reg_key(out: &mut Vec<char>, ext: &str)
    ensures
        final(out)@ == old(out)@ + reg_key(ext@),
{
    push_str(out, REG_CLASSES);
    push_str(out, ext);
    push_str(out, "\\shell\\");
    push_str(out, WIN_VERB);
    assert(final(out)@ =~= old(out)@ + reg_key(ext@));
}

fn push_reg_block(out: &mut Vec<char>, ext: &str, install: bool, command: &Vec<char>, icon: &Vec<char>)
    ensures
        final(out)@ == old(out)@ + reg_block(ext@, install, command@, icon@),
{
    let ghost start = out@;
    if install {
        let label = reg_escape(MENU_LABEL);
        push_str(out, "[");
        push_reg_key(out, ext);
        push_str(out, "]\r\n");
        push_str(out, "@=\"");
        push_all(out, &label);
        push_str(out, "\"\r\n");
        push_str(out, "\"Icon\"=\"");
        push_all(out, icon);
        push_str(out, "\"\r\n\r\n");
        push_str(out, "[");
        push_reg_key(out, ext);
        push_str(out, "\\command]\r\n");
        push_str(out, "@=\"");
        push_all(out, command);
        push_str(out, "\"\r\n\r\n");
    } else {
        push_str(out, "[-");
        push_reg_key(out, ext);
        push_str(out, "]\r\n\r\n");
    }
    assert(out@ =~= start + reg_block(ext@, install, command@, icon@));
}

/// Build the Windows `.reg` body. `install = false` produces the uninstall (`[-key]`) form.
pub fn windows_reg(cfg: &ShellConfig, install: bool) -> (r: String)
    ensures
        r@ == windows_reg_of(*cfg, install),
{
    let mut s = chars_of(REG_HEADER);
    let cmd = cfg.windows_command();
    let command = reg_escape(cmd.as_str());
    let icon = reg_escape(cfg.exe);
    let exts: [&str; 6] = SUPPORTED_EXTENSIONS;
    let mut i: usize = 0;
    while i < 6
        invariant
            i <= 6,
            exts == SUPPORTED_EXTENSIONS,
            command@ == reg_escaped(windows_command_of(*cfg)),
            icon@ == reg_escaped(cfg.exe@),
            s@ == REG_HEADER@ + reg_blocks(i as nat, install, command@, icon@),
        decreases 6 - i,
    {
        push_reg_block(&mut s, exts[i], install, &command, &icon);
        assert(s@ =~= REG_HEADER@ + reg_blocks((i + 1) as nat, install, command@, icon@));
        i = i + 1;
    }
    string_of(&s)
}

/// The text of the macOS Service registration plist.
pub open spec fn info_plist_text() -> Seq<char> {
    INFO_PLIST_HEAD@ + xml_escaped(MENU_LABEL@) + INFO_PLIST_TAIL@
}

/// `needle` occurs in `text`.
pub open spec fn holds_text(text: Seq<char>, needle: Seq<char>) -> bool {
    exists|i: int| 0 <= i && i + needle.len() <= text.len() && #[trigger] text.subrange(i, i + needle.len()) == needle
}

/// Text with none of the four XML special characters is its own escape.
proof fn lemma_plain_text_is_unescaped(s: Seq<char>)
    requires
        forall|i: int| 0 <= i < s.len() ==> s[i] != '&' && s[i] != '<' && s[i] != '>' && s[i] != '"',
    ensures
        xml_escaped(s) == s,
    decreases s.len(),
{
    if s.len() > 0 {
        lemma_plain_text_is_unescaped(s.drop_last());
        assert(s.drop_last() + seq![s.last()] =~= s);
    }
}

/// The Service plist registers a Finder service for images: it starts with the XML declaration
/// and holds, each as a `<string>`, the menu label, the `runWorkflowAsService` message, the Finder
/// as the application it runs in and `public.image` as the type of file it takes.
pub proof fn info_plist_registers_an_image_service()
    ensures
        info_plist_text().take(38) == "<?xml version=\"1.0\" encoding=\"UTF-8\"?>"@,
        holds_text(info_plist_text(), "<string>Compress with Image Compressor</string>"@),
        holds_text(info_plist_text(), "<string>runWorkflowAsService</string>"@),
        holds_text(info_plist_text(), "<string>com.apple.finder</string>"@),
        holds_text(info_plist_text(), "<string>public.image</string>"@),
{
    reveal_strlit(r#"<?xml version="1.0" encoding="UTF-8"?>
<!DOCTYPE plist PUBLIC "-//Apple//DTD PLIST 1.0//EN" "http://www.apple.com/DTDs/PropertyList-1.0.dtd">
<plist version="1.0">
<dict>
	<key>NSServices</key>
	<array>
		<dict>
			<key>NSMenuItem</key>
			<dict>
				<key>default</key>
				<string>"#);
    reveal_strlit(r#"</string>
			</dict>
			<key>NSMessage</key>
			<string>runWorkflowAsService</string>
			<key>NSRequiredContext</key>
			<dict>
				<key>NSApplicationIdentifier</key>
				<string>com.apple.finder</string>
			</dict>
			<key>NSSendFileTypes</key>
			<array>
				<string>public.image</string>
			</array>
		</dict>
	</array>
</dict>
</plist>
"#);
    reveal_strlit("Compress with Image Compressor");
    reveal_strlit("<?xml version=\"1.0\" encoding=\"UTF-8\"?>");
    reveal_strlit("<string>Compress with Image Compressor</string>");
    reveal_strlit("<string>runWorkflowAsService</string>");
    reveal_strlit("<string>com.apple.finder</string>");
    reveal_strlit("<string>public.image</string>");
    lemma_plain_text_is_unescaped(MENU_LABEL@);
    let head = INFO_PLIST_HEAD@;
    let tail = INFO_PLIST_TAIL@;
    let text = info_plist_text();
    assert(text == head + MENU_LABEL@ + tail);
    assert(head.len() == 282 && MENU_LABEL@.len() == 30 && tail.len() == 340);
    assert(text.take(38) =~= head.take(38));
    assert(text.take(38) =~= "<?xml version=\"1.0\" encoding=\"UTF-8\"?>"@);
    let label = "<string>Compress with Image Compressor</string>"@;
    assert(text.subrange(274int, 274int + label.len()) =~= label);
    assert(holds_text(text, label));
    assert(text.subrange(360, 397) =~= tail.subrange(48, 85));
    let message = "<string>runWorkflowAsService</string>"@;
    assert(text.subrange(360int, 360int + message.len()) =~= message);
    assert(holds_text(text, message));
    assert(text.subrange(483, 516) =~= tail.subrange(171, 204));
    let finder = "<string>com.apple.finder</string>"@;
    assert(text.subrange(483int, 483int + finder.len()) =~= finder);
    assert(holds_text(text, finder));
    assert(text.subrange(573, 602) =~= tail.subrange(261, 290));
    let image = "<string>public.image</string>"@;
    assert(text.subrange(573int, 573int + image.len()) =~= image);
    assert(holds_text(text, image));
}

/// The macOS Service registration plist (`Contents/Info.plist`).
pub fn macos_info_plist() -> (r: String)
    ensures
        r@ == info_plist_text(),
{
    let mut s = chars_of(INFO_PLIST_HEAD);
    let label = xml_escape(MENU_LABEL);
    push_all(&mut s, &label);
    push_str(&mut s, INFO_PLIST_TAIL);
    string_of(&s)
}

/// The Automator workflow document (`Contents/document.wflow`): a single Run Shell Script action that
/// receives the selected file paths as arguments and forwards them to `imgc compress`.
pub fn macos_wflow(cfg: &ShellConfig) -> (r: String)
    ensures
        r@ == WFLOW_HEAD@ + xml_escaped(macos_command_of(*cfg)) + WFLOW_TAIL@,
{
    let mut s = chars_of(WFLOW_HEAD);
    let cmd = cfg.macos_command();
    let escaped = xml_escape(cmd.as_str());
    push_all(&mut s, &escaped);
    push_str(&mut s, WFLOW_TAIL);
    string_of(&s)
}

/// Reading a `.reg` double-quoted value: a backslash takes the next character literally.
pub open spec fn reg_unescaped(t: Seq<char>) -> Seq<char>
    decreases t.len(),
{
    if t.len() == 0 {
        seq![]
    } else if t[0] == '\\' && t.len() >= 2 {
        seq![t[1]] + reg_unescaped(t.skip(2))
    } else {
        seq![t[0]] + reg_unescaped(t.skip(1))
    }
}

proof fn lemma_reg_escaped_append(a: Seq<char>, b: Seq<char>)
    ensures
        reg_escaped(a + b) == reg_escaped(a) + reg_escaped(b),
    decreases b.len(),
{
    if b.len() == 0 {
        assert(a + b =~= a);
        assert(reg_escaped(a) + reg_escaped(b) =~= reg_escaped(a));
    } else {
        lemma_reg_escaped_append(a, b.drop_last());
        assert((a + b).drop_last() =~= a + b.drop_last());
        assert((a + b).last() == b.last());
    }
}

proof fn lemma_reg_unescape_front(c: char, rest: Seq<char>)
    ensures
        reg_unescaped(reg_escaped(seq![c]) + rest) == seq![c] + reg_unescaped(rest),
{
    let one = seq![c];
    assert(one.drop_last() =~= Seq::<char>::empty());
    assert(reg_escaped(one.drop_last()) =~= Seq::<char>::empty());
    assert(one.last() == c);
    let t = reg_escaped(one) + rest;
    if c == '\\' || c == '"' {
        assert(reg_escaped(one) =~= seq!['\\', c]);
        assert(t.skip(2) =~= rest);
    } else {
        assert(reg_escaped(one) =~= seq![c]);
        assert(t.skip(1) =~= rest);
    }
}

/// Escaping for a `.reg` value loses nothing: reading the escaped text back gives the original
/// string, so the registry receives exactly the command that was built.
pub proof fn reg_escape_reads_back(s: Seq<char>)
    ensures
        reg_unescaped(reg_escaped(s)) == s,
    decreases s.len(),
{
    if s.len() > 0 {
        let c = s[0];
        let rest = s.skip(1);
        assert(s =~= seq![c] + rest);
        lemma_reg_escaped_append(seq![c], rest);
        lemma_reg_unescape_front(c, reg_escaped(rest));
        reg_escape_reads_back(rest);
    }
}

/// XML escaping leaves no markup: the escaped text holds no `<`, `>` or `"`, so embedding it in a
/// plist string element cannot end the element or break the document.
pub proof fn xml_escape_leaves_no_markup(s: Seq<char>)
    ensures
        forall|i: int|
            0 <= i < xml_escaped(s).len() ==> #[trigger] xml_escaped(s)[i] != '<' && xml_escaped(s)[i]
                != '>' && xml_escaped(s)[i] != '"',
    decreases s.len(),
{
    reveal_strlit("&amp;");
    reveal_strlit("&lt;");
    reveal_strlit("&gt;");
    reveal_strlit("&quot;");
    if s.len() > 0 {
        xml_escape_leaves_no_markup(s.drop_last());
        let head = xml_escaped(s.drop_last());
        let c = s.last();
        let tail = if c == '&' {
            "&amp;"@
        } else if c == '<' {
            "&lt;"@
        } else if c == '>' {
            "&gt;"@
        } else if c == '"' {
            "&quot;"@
        } else {
            seq![c]
        };
        assert(xml_escaped(s) == head + tail);
        assert forall|i: int| 0 <= i < xml_escaped(s).len() implies #[trigger] xml_escaped(s)[i] != '<'
            && xml_escaped(s)[i] != '>' && xml_escaped(s)[i] != '"' by {
            if i < head.len() {
                assert(xml_escaped(s)[i] == head[i]);
            } else {
                assert(xml_escaped(s)[i] == tail[i - head.len()]);
            }
        }
    }
}

} // verus!
