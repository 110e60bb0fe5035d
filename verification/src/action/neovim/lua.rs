//! Lua snippets that the bridge runs inside Neovim.
use vstd::prelude::*;
use vstd::string::*;
use vstd::std_specs::iter::IteratorSpec;

verus! {

broadcast use vstd::string::group_string_axioms;

/// The part of the buffer-reload snippet before the buffer number.
pub const REFRESH_HEAD: &'static str = "\n        local buf = ";

/// The part of the buffer-reload snippet after the buffer number.
pub const REFRESH_TAIL: &'static str = "\n        local cursor_positions = {}\n        local is_current_buf = vim.api.nvim_get_current_buf() == buf\n\n        for _, win in ipairs(vim.api.nvim_list_wins()) do\n            if vim.api.nvim_win_get_buf(win) == buf then\n                cursor_positions[win] = vim.api.nvim_win_get_cursor(win)\n            end\n        end\n\n        vim.api.nvim_buf_call(buf, function()\n            vim.cmd('checktime')\n            vim.cmd('edit')\n        end)\n\n        for win, pos in pairs(cursor_positions) do\n            if vim.api.nvim_win_is_valid(win) then\n                pcall(vim.api.nvim_win_set_cursor, win, pos)\n            end\n        end\n\n        if is_current_buf then\n            vim.cmd('redraw')\n        end\n        ";

/// The snippet that reports the current visual selection as JSON, or nil.
pub const VISUAL_SELECTION_LUA: &'static str = "\n    local mode = vim.fn.mode()\n    if not mode:match('[vV\\22]') then\n        return nil\n    end\n\n    local start_pos = vim.fn.getpos(\"v\")\n    local end_pos = vim.fn.getpos(\".\")\n    local sel_type = mode:sub(1, 1)\n\n    if start_pos[2] == 0 or end_pos[2] == 0 then\n        return nil\n    end\n\n    local file_path = vim.api.nvim_buf_get_name(0)\n    if file_path == \"\" then\n        return nil\n    end\n\n    local lines = vim.fn.getregion(start_pos, end_pos, { type = sel_type })\n    local content = table.concat(lines, \"\\n\")\n\n    local start_line = math.min(start_pos[2], end_pos[2])\n    local end_line = math.max(start_pos[2], end_pos[2])\n\n    return vim.fn.json_encode({\n        file_path = file_path,\n        start_line = start_line,\n        end_line = end_line,\n        content = content,\n        cwd = vim.fn.getcwd()\n    })\n    ";

/// The start of the notification snippet, up to the opening quote of the message.
pub const NOTIFY_HEAD: &'static str = "vim.notify(\"";

/// The end of the notification snippet, from the closing quote of the message.
pub const NOTIFY_TAIL: &'static str = "\", vim.log.levels.ERROR)";

/// The decimal digit character for `d` (for `d < 10`).
pub open spec fn digit_char(d: nat) -> char {
    if d == 0 { '0' }
    else if d == 1 { '1' }
    else if d == 2 { '2' }
    else if d == 3 { '3' }
    else if d == 4 { '4' }
    else if d == 5 { '5' }
    else if d == 6 { '6' }
    else if d == 7 { '7' }
    else if d == 8 { '8' }
    else { '9' }
}

/// The decimal digits of a natural number, most significant first, without leading zeros.
pub open spec fn digits(n: nat) -> Seq<char>
    decreases n,
{
    if n < 10 {
        seq![digit_char(n)]
    } else {
        digits(n / 10).push(digit_char(n % 10))
    }
}

/// The decimal form of an integer, as `Display` writes it: a leading `-` for negatives.
pub open spec fn decimal(i: int) -> Seq<char> {
    if i < 0 {
        seq!['-'] + digits((-i) as nat)
    } else {
        digits(i as nat)
    }
}

/// How one message character is written inside a double-quoted Lua string.
pub open spec fn escape_char(c: char) -> Seq<char> {
    if c == '\\' {
        seq!['\\', '\\']
    } else if c == '"' {
        seq!['\\', '"']
    } else if c == '\n' {
        seq!['\\', 'n']
    } else if c == '\r' {
        seq!['\\', 'r']
    } else if c == '\t' {
        seq!['\\', 't']
    } else {
        seq![c]
    }
}

/// A message escaped character by character for a double-quoted Lua string.
pub open spec fn lua_escape(s: Seq<char>) -> Seq<char>
    decreases s.len(),
{
    if s.len() == 0 {
        Seq::empty()
    } else {
        escape_char(s[0]) + lua_escape(s.skip(1))
    }
}

/// The character that Lua reads for the escape `\c`, for the escapes written here.
pub open spec fn unescape_code(c: char) -> char {
    if c == 'n' {
        '\n'
    } else if c == 'r' {
        '\r'
    } else if c == 't' {
        '\t'
    } else {
        c
    }
}

/// The text that Lua reads from the body of a double-quoted string literal,
/// for bodies made of plain characters and the escapes written here.
pub open spec fn lua_unescape(t: Seq<char>) -> Seq<char>
    decreases t.len(),
{
    if t.len() == 0 {
        Seq::empty()
    } else if t[0] == '\\' && t.len() >= 2 {
        seq![unescape_code(t[1])] + lua_unescape(t.skip(2))
    } else {
        seq![t[0]] + lua_unescape(t.skip(1))
    }
}

/// The body of a double-quoted Lua string literal stays inside the literal and on one
/// line: each backslash starts an escape of one of the characters `\ " n r t`, and no
/// bare quote, line feed or carriage return occurs.
pub open spec fn stays_in_literal(t: Seq<char>) -> bool
    decreases t.len(),
{
    if t.len() == 0 {
        true
    } else if t[0] == '\\' {
        &&& t.len() >= 2
        &&& (t[1] == '\\' || t[1] == '"' || t[1] == 'n' || t[1] == 'r' || t[1] == 't')
        &&& stays_in_literal(t.skip(2))
    } else {
        &&& t[0] != '"'
        &&& t[0] != '\n'
        &&& t[0] != '\r'
        &&& stays_in_literal(t.skip(1))
    }
}

/// Appends one character to a string.
#[verifier::external_body]
fn push_char(s: &mut String, c: char)
    ensures
        final(s)@ == old(s)@.push(c),
{
    s.push(c);
}

fn digit(d: u64) -> (c: char)
    requires
        d < 10,
    ensures
        c == digit_char(d as nat),
{
    match d {
        0 => '0',
        1 => '1',
        2 => '2',
        3 => '3',
        4 => '4',
        5 => '5',
        6 => '6',
        7 => '7',
        8 => '8',
        _ => '9',
    }
}

fn push_digits(s: &mut String, n: u64)
    ensures
        final(s)@ == old(s)@ + digits(n as nat),
    decreases n,
{
    let ghost start = s@;
    if n >= 10 {
        push_digits(s, n / 10);
    }
    push_char(s, digit(n % 10));
    proof {
        if n >= 10 {
            assert(s@ =~= start + digits((n / 10) as nat).push(digit_char((n % 10) as nat)));
        } else {
            assert(s@ =~= start + seq![digit_char(n as nat)]);
        }
    }
}

/// Appends the decimal form of `n` to `s`.
pub fn push_decimal(s: &mut String, n: i64)
    ensures
        final(s)@ == old(s)@ + decimal(n as int),
{
    let ghost start = s@;
    if n < 0 {
        push_char(s, '-');
        let m: u64 = if n == i64::MIN {
            9223372036854775808u64
        } else {
            (-n) as u64
        };
        push_digits(s, m);
        assert(s@ =~= start + (seq!['-'] + digits((-n) as nat)));
    } else {
        push_digits(s, n as u64);
    }
}

/// The Lua code that reloads buffer `buf_number` from disk, keeping the cursor of
/// every window that shows it and redrawing when it is the current buffer.
pub fn refresh_buffer_lua(buf_number: i64) -> (code: String)
    ensures
        code@ == REFRESH_HEAD@ + decimal(buf_number as int) + REFRESH_TAIL@,
{
    let mut code = String::from_str(REFRESH_HEAD);
    push_decimal(&mut code, buf_number);
    code.append(REFRESH_TAIL);
    code
}

proof fn lemma_escape_concat(a: Seq<char>, b: Seq<char>)
    ensures
        lua_escape(a + b) == lua_escape(a) + lua_escape(b),
    decreases a.len(),
{
    if a.len() == 0 {
        assert(a + b =~= b);
        assert(lua_escape(a) + lua_escape(b) =~= lua_escape(b));
    } else {
        assert((a + b).skip(1) =~= a.skip(1) + b);
        lemma_escape_concat(a.skip(1), b);
        assert(lua_escape(a + b) =~= escape_char(a[0]) + (lua_escape(a.skip(1)) + lua_escape(b)));
        assert(lua_escape(a) + lua_escape(b) =~= escape_char(a[0]) + lua_escape(a.skip(1)) + lua_escape(b));
    }
}

proof fn lemma_escape_one(c: char)
    ensures
        lua_escape(seq![c]) == escape_char(c),
{
    assert(seq![c].skip(1) =~= Seq::<char>::empty());
    assert(lua_escape(seq![c].skip(1)) =~= Seq::<char>::empty());
    assert(escape_char(c) + Seq::<char>::empty() =~= escape_char(c));
}

/// Writes the message escaped for a double-quoted Lua string onto the end of `out`.
fn push_escaped(out: &mut String, message: &str)
    ensures
        final(out)@ == old(out)@ + lua_escape(message@),
{
    let ghost start = out@;
    let ghost text = message@;
    assert(text.take(0) =~= Seq::<char>::empty());
    let mut it = message.chars();
    let ghost mut i: int = 0;
    assert(it.remaining() == text);
    loop
        invariant
            0 <= i <= text.len(),
            start == old(out)@,
            text == message@,
            it.remaining() == text.skip(i),
            out@ == start + lua_escape(text.take(i)),
        decreases text.len() - i,
    {
        let ghost before = it;
        let next = it.next();
        match next {
            None => {
                assert(before.remaining().len() == 0);
                assert(i == text.len());
                assert(text.take(i) =~= text);
                return;
            },
            Some(c) => {
                proof {
                    assert(c == text[i]);
                    assert(text.skip(i).drop_first() =~= text.skip(i + 1));
                    lemma_escape_concat(text.take(i), seq![c]);
                    lemma_escape_one(c);
                    assert(text.take(i + 1) =~= text.take(i) + seq![c]);
                }
                if c == '\\' {
                    push_char(out, '\\');
                    push_char(out, '\\');
                } else if c == '"' {
                    push_char(out, '\\');
                    push_char(out, '"');
                } else if c == '\n' {
                    push_char(out, '\\');
                    push_char(out, 'n');
                } else if c == '\r' {
                    push_char(out, '\\');
                    push_char(out, 'r');
                } else if c == '\t' {
                    push_char(out, '\\');
                    push_char(out, 't');
                } else {
                    push_char(out, c);
                }
                proof {
                    assert(out@ =~= start + lua_escape(text.take(i)) + escape_char(c));
                    i = i + 1;
                }
            },
        }
    }
}

/// The Lua code that shows `message` as an error notification in Neovim; the message
/// is escaped so that it stays inside the Lua string literal.
pub fn send_notification_lua(message: &str) -> (code: String)
    ensures
        code@ == NOTIFY_HEAD@ + lua_escape(message@) + NOTIFY_TAIL@,
{
    let mut code = String::from_str(NOTIFY_HEAD);
    push_escaped(&mut code, message);
    code.append(NOTIFY_TAIL);
    code
}

/// The Lua code that returns the visual selection of the current window as JSON
/// (file path, first and last line, working directory and text), or nil when Neovim
/// is not in a visual mode or the buffer has no name.
pub fn get_visual_selection_lua() -> (code: &'static str)
    ensures
        code@ == VISUAL_SELECTION_LUA@,
{
    VISUAL_SELECTION_LUA
}

/// The decimal form is the one `Display` writes: a digit is the character whose code
/// is `'0'` plus its value; a number below ten is its one digit; a larger number is the
/// decimal form of its tenth followed by its last digit; a negative number is `-`
/// followed by the decimal form of its magnitude.
pub proof fn law_decimal_form(n: int, d: nat)
    ensures
        d < 10 ==> digit_char(d) as int == '0' as int + d,
        0 <= n < 10 ==> decimal(n) == seq![digit_char(n as nat)],
        n >= 10 ==> decimal(n) == decimal(n / 10).push(digit_char((n % 10) as nat)),
        n < 0 ==> decimal(n) == seq!['-'] + decimal(-n),
{
}

proof fn lemma_digits_nonempty(n: nat)
    ensures
        digits(n).len() >= 1,
        n >= 10 ==> digits(n).len() >= 2,
    decreases n,
{
    if n >= 10 {
        lemma_digits_nonempty(n / 10);
    }
}

proof fn lemma_digits_no_sign(n: nat)
    ensures
        digits(n).len() >= 1 && digits(n)[0] != '-',
    decreases n,
{
    lemma_digits_nonempty(n);
    if n >= 10 {
        lemma_digits_no_sign(n / 10);
        assert(digits(n)[0] == digits(n / 10)[0]);
    }
}

proof fn lemma_digits_injective(a: nat, b: nat)
    requires
        digits(a) == digits(b),
    ensures
        a == b,
    decreases a,
{
    lemma_digits_nonempty(a);
    lemma_digits_nonempty(b);
    if a < 10 && b < 10 {
        assert(digits(a)[0] == digit_char(a));
        assert(digits(b)[0] == digit_char(b));
    } else if a >= 10 && b >= 10 {
        assert(digits(a / 10) =~= digits(a).drop_last());
        assert(digits(b / 10) =~= digits(b).drop_last());
        lemma_digits_injective(a / 10, b / 10);
        assert(digits(a).last() == digit_char(a % 10));
        assert(digits(b).last() == digit_char(b % 10));
    } else {
        assert(digits(a).len() != digits(b).len());
    }
}

proof fn lemma_decimal_injective(a: int, b: int)
    requires
        decimal(a) == decimal(b),
    ensures
        a == b,
{
    if a < 0 && b < 0 {
        assert(digits((-a) as nat) =~= decimal(a).skip(1));
        assert(digits((-b) as nat) =~= decimal(b).skip(1));
        lemma_digits_injective((-a) as nat, (-b) as nat);
    } else if a >= 0 && b >= 0 {
        lemma_digits_injective(a as nat, b as nat);
    } else if a < 0 {
        lemma_digits_no_sign(b as nat);
        assert(decimal(a)[0] == '-');
        assert(decimal(b)[0] != '-');
    } else {
        lemma_digits_no_sign(a as nat);
        assert(decimal(b)[0] == '-');
        assert(decimal(a)[0] != '-');
    }
}

/// The reload snippet names the buffer it was asked for: different buffer numbers
/// give different snippets.
pub proof fn law_refresh_names_buffer(a: i64, b: i64)
    requires
        a != b,
    ensures
        REFRESH_HEAD@ + decimal(a as int) + REFRESH_TAIL@ != REFRESH_HEAD@ + decimal(b as int)
            + REFRESH_TAIL@,
{
    let head = REFRESH_HEAD@;
    let tail = REFRESH_TAIL@;
    let sa = head + decimal(a as int) + tail;
    let sb = head + decimal(b as int) + tail;
    if sa == sb {
        assert(sa.len() == sb.len());
        assert(decimal(a as int) =~= sa.subrange(head.len() as int, sa.len() - tail.len()));
        assert(decimal(b as int) =~= sb.subrange(head.len() as int, sb.len() - tail.len()));
        lemma_decimal_injective(a as int, b as int);
    }
}

/// Reading the escaped message back as Lua reads a string literal gives the message:
/// the notification shows exactly the text it was given.
pub proof fn law_escape_round_trip(message: Seq<char>)
    ensures
        lua_unescape(lua_escape(message)) == message,
    decreases message.len(),
{
    if message.len() == 0 {
    } else {
        let c = message[0];
        let rest = message.skip(1);
        law_escape_round_trip(rest);
        let t = escape_char(c) + lua_escape(rest);
        if c == '\\' || c == '"' || c == '\n' || c == '\r' || c == '\t' {
            assert(t[0] == '\\');
            assert(t.skip(2) =~= lua_escape(rest));
            assert(unescape_code(t[1]) == c);
        } else {
            assert(t[0] == c);
            assert(t.skip(1) =~= lua_escape(rest));
        }
        assert(lua_unescape(t) =~= seq![c] + rest);
        assert(seq![c] + rest =~= message);
    }
}

/// Whatever the message holds, its escaped form cannot end the Lua string literal
/// early nor break it across lines.
pub proof fn law_escape_stays_in_literal(message: Seq<char>)
    ensures
        stays_in_literal(lua_escape(message)),
    decreases message.len(),
{
    if message.len() == 0 {
    } else {
        let c = message[0];
        let rest = message.skip(1);
        law_escape_stays_in_literal(rest);
        let t = escape_char(c) + lua_escape(rest);
        if c == '\\' || c == '"' || c == '\n' || c == '\r' || c == '\t' {
            assert(t.skip(2) =~= lua_escape(rest));
        } else {
            assert(t.skip(1) =~= lua_escape(rest));
        }
    }
}

} // verus!
