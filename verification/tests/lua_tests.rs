use bridge_opencode::action::neovim::lua::{
    get_visual_selection_lua, push_decimal, refresh_buffer_lua, send_notification_lua,
    REFRESH_HEAD, REFRESH_TAIL,
};

fn original_escape(message: &str) -> String {
    message
        .replace('\\', "\\\\")
        .replace('"', "\\\"")
        .replace('\n', "\\n")
        .replace('\r', "\\r")
        .replace('\t', "\\t")
}

#[test]
fn refresh_lua_inserts_buffer_number() {
    let code = refresh_buffer_lua(42);
    assert_eq!(code, format!("{}{}{}", REFRESH_HEAD, 42, REFRESH_TAIL));
    assert!(code.starts_with("\n        local buf = 42\n        local cursor_positions = {}\n"));
    assert!(code.contains("vim.cmd('checktime')"));
    assert!(code.ends_with("            vim.cmd('redraw')\n        end\n        "));
}

#[test]
fn refresh_lua_formats_numbers_like_display() {
    for n in [0i64, 7, 10, 99, 100, 123456789, -1, -10, -987, i64::MAX, i64::MIN] {
        assert_eq!(refresh_buffer_lua(n), format!("{}{}{}", REFRESH_HEAD, n, REFRESH_TAIL));
    }
}

#[test]
fn push_decimal_appends() {
    let mut s = String::from("x=");
    push_decimal(&mut s, -9223372036854775808);
    assert_eq!(s, "x=-9223372036854775808");
    let mut t = String::new();
    push_decimal(&mut t, 0);
    assert_eq!(t, "0");
}

#[test]
fn notification_plain_message() {
    assert_eq!(
        send_notification_lua("build failed"),
        "vim.notify(\"build failed\", vim.log.levels.ERROR)"
    );
}

#[test]
fn notification_escapes_specials() {
    let msg = "say \"hi\"\\ now\nline\rret\ttab";
    let code = send_notification_lua(msg);
    assert_eq!(
        code,
        "vim.notify(\"say \\\"hi\\\"\\\\ now\\nline\\rret\\ttab\", vim.log.levels.ERROR)"
    );
    assert_eq!(code, format!(r#"vim.notify("{}", vim.log.levels.ERROR)"#, original_escape(msg)));
}

#[test]
fn notification_matches_replace_chain() {
    for msg in ["", "\\", "\"", "\\\"", "\\n", "a\n\nb", "ünïcödé ✓ \t", "end\\"] {
        assert_eq!(
            send_notification_lua(msg),
            format!(r#"vim.notify("{}", vim.log.levels.ERROR)"#, original_escape(msg))
        );
    }
}

#[test]
fn notification_escape_round_trip_and_one_line() {
    let msg = "quote\" slash\\ nl\n cr\r tab\t";
    let code = send_notification_lua(msg);
    let body = &code["vim.notify(\"".len()..code.len() - "\", vim.log.levels.ERROR)".len()];
    assert!(!body.contains('\n') && !body.contains('\r'));
    let mut out = String::new();
    let mut chars = body.chars();
    while let Some(c) = chars.next() {
        if c == '\\' {
            match chars.next().unwrap() {
                'n' => out.push('\n'),
                'r' => out.push('\r'),
                't' => out.push('\t'),
                other => out.push(other),
            }
        } else {
            assert_ne!(c, '"');
            out.push(c);
        }
    }
    assert_eq!(out, msg);
}

#[test]
fn visual_selection_lua_text() {
    let code = get_visual_selection_lua();
    assert!(code.starts_with("\n    local mode = vim.fn.mode()\n    if not mode:match('[vV\\22]') then\n"));
    assert!(code.contains("local content = table.concat(lines, \"\\n\")"));
    assert!(code.contains("cwd = vim.fn.getcwd()\n    })\n    "));
}

#[test]
fn refresh_lua_differs_per_buffer() {
    assert_ne!(refresh_buffer_lua(1), refresh_buffer_lua(11));
    assert_ne!(refresh_buffer_lua(-1), refresh_buffer_lua(1));
    assert_ne!(refresh_buffer_lua(10), refresh_buffer_lua(100));
}
