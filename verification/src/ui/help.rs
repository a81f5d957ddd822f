use vstd::prelude::*;
use crate::app::Screen;

verus! {

/// Keybinding hints for each screen, shown in the footer.
pub open spec fn footer_spec(screen: Screen) -> Seq<char> {
    match screen {
        Screen::BranchList => "\u{2191}/\u{2193} move  / search  Space select  Enter open  Del delete  a all  p push  q quit"@,
        Screen::CommitList => "\u{2191}/\u{2193} move  Space toggle  Enter cherry-pick  q/Esc back"@,
        Screen::Execution => "running\u{2026}  q quit"@,
        Screen::ConflictPause => "c continue (after resolving + git add)  a abort  q/Esc quit"@,
        Screen::Quit => ""@,
    }
}

/// Keybinding hints for the given screen, shown in a persistent footer so
/// a first-time user always knows what to press.
pub fn footer_text(screen: &Screen) -> (r: &'static str)
    ensures
        r@ == footer_spec(*screen),
{
    match screen {
        Screen::BranchList => "\u{2191}/\u{2193} move  / search  Space select  Enter open  Del delete  a all  p push  q quit",
        Screen::CommitList => "\u{2191}/\u{2193} move  Space toggle  Enter cherry-pick  q/Esc back",
        Screen::Execution => "running\u{2026}  q quit",
        Screen::ConflictPause => "c continue (after resolving + git add)  a abort  q/Esc quit",
        Screen::Quit => "",
    }
}

/// Rows a footer of `len` characters takes at `width` columns: enough rows
/// to hold it, at least one.
pub open spec fn footer_rows(len: nat, width: nat) -> nat {
    if width == 0 || len <= width {
        1
    } else {
        ((len + width - 1) as int / width as int) as nat
    }
}

/// The footer height for `text` at `width` columns.
pub fn footer_height(text: &str, width: u16) -> (r: u16)
    ensures
        r as nat == if footer_rows(text@.len(), width as nat) <= u16::MAX {
            footer_rows(text@.len(), width as nat)
        } else {
            u16::MAX as nat
        },
{
    let len = crate::text::chars_of(text).len();
    let w = width as usize;
    if w == 0 || len <= w {
        return 1;
    }
    let q = len / w;
    let rem = len % w;
    let rows = if rem == 0 {
        q
    } else {
        assert(q < len) by (nonlinear_arith)
            requires
                w > 0,
                q == len / w,
                rem == len % w,
                rem != 0,
                len > w,
        ;
        q + 1
    };
    assert(rows == (len + w - 1) / (w as int)) by (nonlinear_arith)
        requires
            w > 0,
            q == len / w,
            rem == len % w,
            rows == if rem == 0 {
                q as int
            } else {
                q + 1
            },
    ;
    if rows > u16::MAX as usize {
        u16::MAX
    } else {
        rows as u16
    }
}

} // verus!
