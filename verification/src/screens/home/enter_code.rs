//! Entry of the numeric attendance code.

use crate::app::{App, HostView};
use crate::event::{event_key, key_of, Event, KeyCode};
use crate::screens::home::{HomeScreen, HomeView};
use crate::screens::loading::{PendingOperation, PendingOperationView};
use crate::screens::{handled_by, Handled, Screen, ScreenAction, ScreenActionView, ScreenView};
use crate::text::{decimal, decimal_digits, is_ascii_digit, is_digit, without_last};
use vstd::prelude::*;
use vstd::string::*;

verus! {

/// The number of digits of a complete code.
pub const CODE_LEN: usize = 6;

/// A code in the making: only digits, never more than `CODE_LEN` of them.
#[derive(Debug, PartialEq, Eq)]
pub struct EnterCodeScreen {
    code: String,
}

/// The view of an `EnterCodeScreen`.
pub struct EnterCodeView {
    pub code: Seq<char>,
}

impl EnterCodeView {
    /// Only digits, and no more than a complete code has.
    pub open spec fn wf(self) -> bool {
        &&& self.code.len() <= CODE_LEN
        &&& forall|i: int| 0 <= i < self.code.len() ==> is_digit(#[trigger] self.code[i])
    }

    /// The code with no digit entered.
    pub open spec fn empty() -> EnterCodeView {
        EnterCodeView { code: Seq::empty() }
    }

    /// Whether every digit of the code has been entered.
    pub open spec fn complete(self) -> bool {
        self.code.len() >= CODE_LEN
    }

    /// The code after the character `c` was typed: a digit is added to a
    /// code that is not complete yet, and nothing else changes anything.
    pub open spec fn typed(self, c: char) -> EnterCodeView {
        if !self.complete() && is_digit(c) {
            EnterCodeView { code: self.code.push(c) }
        } else {
            self
        }
    }

    /// The code after its last digit was deleted.
    pub open spec fn erased(self) -> EnterCodeView {
        EnterCodeView { code: without_last(self.code) }
    }
}

/// The message shown while the code is handed in.
pub open spec fn submitting_message() -> Seq<char> {
    "Submitting code..."@
}

/// Whether the code entry reads the host's profile when it handles
/// `event`: it does on Esc and `q`, which lead back to the menu of that
/// user, and on Enter with a complete code, which is handed in for that
/// user. Typing, Backspace and Enter on an incomplete code read nothing of
/// the host.
pub open spec fn reads_profile(v: EnterCodeView, event: Option<Event>) -> bool {
    ||| key_of(event) == Some(KeyCode::Esc)
    ||| key_of(event) == Some(KeyCode::Char('q'))
    ||| (key_of(event) == Some(KeyCode::Enter) && v.complete())
}

/// The action that leads back to the menu of the host's signed-in user.
pub open spec fn back_home(host: HostView) -> ScreenActionView {
    ScreenActionView::SwitchTo(ScreenView::Home(HomeView::opening(host.user_details.unwrap())))
}

/// How the code entry handles one event: `q` and Esc lead back to the menu,
/// any other character is typed, Backspace deletes the last digit, Enter
/// hands in a complete code and does nothing with an incomplete one, and
/// everything else is ignored.
pub open spec fn enter_code_step(v: EnterCodeView, host: HostView, event: Option<Event>) -> Handled<
    EnterCodeView,
> {
    match key_of(event) {
        Some(KeyCode::Esc) => Handled { state: v, host, action: back_home(host) },
        Some(KeyCode::Char(c)) => if c == 'q' {
            Handled { state: v, host, action: back_home(host) }
        } else {
            Handled { state: v.typed(c), host, action: ScreenActionView::Stay }
        },
        Some(KeyCode::Backspace) => Handled {
            state: v.erased(),
            host,
            action: ScreenActionView::Stay,
        },
        Some(KeyCode::Enter) => Handled {
            state: v,
            host,
            action: if v.complete() {
                ScreenActionView::SwitchAsync {
                    operation: PendingOperationView::SubmitCode {
                        code: v.code,
                        user_details: host.user_details.unwrap(),
                    },
                    message: submitting_message(),
                }
            } else {
                ScreenActionView::Stay
            },
        },
        _ => Handled { state: v, host, action: ScreenActionView::Stay },
    }
}

impl EnterCodeScreen {
    #[verifier::type_invariant]
    spec fn digits_only(&self) -> bool {
        (EnterCodeView { code: self.code@ }).wf()
    }

    pub closed spec fn view(&self) -> EnterCodeView {
        EnterCodeView { code: self.code@ }
    }

    /// The screen with no digit entered yet.
    pub fn new() -> (r: Self)
        ensures
            r@ == EnterCodeView::empty(),
    {
        EnterCodeScreen { code: String::new() }
    }

    /// The digits entered so far.
    pub fn code(&self) -> (r: &String)
        ensures
            r@ == self@.code,
            self@.wf(),
    {
        proof {
            use_type_invariant(self);
        }
        &self.code
    }

    /// The number of digits entered so far.
    pub fn len(&self) -> (r: usize)
        ensures
            r == self@.code.len(),
            r <= CODE_LEN,
            self@.wf(),
    {
        proof {
            use_type_invariant(self);
            vstd::utf8::is_ascii_chars_encode_utf8(self.code@);
        }
        self.code.as_str().len()
    }

    /// Handles one event. Where the event is one on which the profile of
    /// the signed-in user is read, the host must hold it; the menu that
    /// leads here has put it there.
    pub fn handle_event(&mut self, app: &mut App, event: Option<Event>) -> (action: ScreenAction)
        requires
            reads_profile(old(self)@, event) ==> old(app)@.host.user_details is Some,
        ensures
            handled_by(
                enter_code_step(old(self)@, old(app)@.host, event),
                final(self)@,
                old(app)@,
                final(app)@,
                action@,
            ),
            final(self)@.wf(),
    {
        proof {
            use_type_invariant(&*self);
        }
        match event_key(event) {
            Some(KeyCode::Esc) => ScreenAction::SwitchTo(
                Screen::Home(HomeScreen::new(app.user_details().unwrap())),
            ),
            Some(KeyCode::Char(c)) => {
                if c == 'q' {
                    ScreenAction::SwitchTo(
                        Screen::Home(HomeScreen::new(app.user_details().unwrap())),
                    )
                } else {
                    if self.len() >= CODE_LEN {
                        return ScreenAction::Stay;
                    }
                    if is_ascii_digit(c) {
                        let mut code = String::new();
                        std::mem::swap(&mut self.code, &mut code);
                        code.push(c);
                        self.code = code;
                    }
                    ScreenAction::Stay
                }
            },
            Some(KeyCode::Backspace) => {
                let mut code = String::new();
                std::mem::swap(&mut self.code, &mut code);
                let _ = code.pop();
                self.code = code;
                ScreenAction::Stay
            },
            Some(KeyCode::Enter) => {
                if self.len() < CODE_LEN {
                    return ScreenAction::Stay;
                }
                ScreenAction::SwitchAsync {
                    operation: PendingOperation::SubmitCode {
                        code: self.code.clone(),
                        user_details: app.user_details().unwrap(),
                    },
                    message: "Submitting code...".to_owned(),
                }
            },
            _ => ScreenAction::Stay,
        }
    }
}

/// The five rows, five columns wide, that draw a digit in block
/// characters; for any other character, a question mark.
pub open spec fn large_digit(digit: char) -> Seq<char> {
    if digit == '0' {
        " ▄▄▄ \n█   █\n█   █\n█   █\n ▀▀▀ "@
    } else if digit == '1' {
        "  █  \n ██  \n  █  \n  █  \n ███ "@
    } else if digit == '2' {
        " ▄▄▄ \n    █\n ▄▄▄ \n█    \n▀▀▀▀ "@
    } else if digit == '3' {
        " ▄▄▄ \n    █\n ▄▄▄ \n    █\n ▀▀▀ "@
    } else if digit == '4' {
        "█   █\n█   █\n▀▀▀▀█\n    █\n    █"@
    } else if digit == '5' {
        " ▄▄▄ \n█    \n▀▀▀▄ \n    █\n ▀▀▀ "@
    } else if digit == '6' {
        " ▄▄▄ \n█    \n█▄▄▄ \n█   █\n ▀▀▀ "@
    } else if digit == '7' {
        " ▄▄▄ \n    █\n   █ \n  █  \n  █  "@
    } else if digit == '8' {
        " ▄▄▄ \n█   █\n ▄▄▄ \n█   █\n ▀▀▀ "@
    } else if digit == '9' {
        " ▄▄▄ \n█   █\n ▀▀▀█\n    █\n ▀▀▀ "@
    } else {
        "\n  ?\n\n\n     "@
    }
}

/// Five rows of five columns each, with a line break between two rows.
pub open spec fn is_glyph(s: Seq<char>) -> bool {
    &&& s.len() == 29
    &&& forall|i: int| 0 <= i < 29 ==> ((#[trigger] s[i]) == '\n' <==> i % 6 == 5)
}

/// The large form of `digit`.
pub fn get_large_digit(digit: char) -> (r: String)
    ensures
        r@ == large_digit(digit),
        is_digit(digit) ==> is_glyph(r@),
{
    let glyph = if digit == '0' {
        proof {
            reveal_strlit(" ▄▄▄ \n█   █\n█   █\n█   █\n ▀▀▀ ");
        }
        " ▄▄▄ \n█   █\n█   █\n█   █\n ▀▀▀ "
    } else if digit == '1' {
        proof {
            reveal_strlit("  █  \n ██  \n  █  \n  █  \n ███ ");
        }
        "  █  \n ██  \n  █  \n  █  \n ███ "
    } else if digit == '2' {
        proof {
            reveal_strlit(" ▄▄▄ \n    █\n ▄▄▄ \n█    \n▀▀▀▀ ");
        }
        " ▄▄▄ \n    █\n ▄▄▄ \n█    \n▀▀▀▀ "
    } else if digit == '3' {
        proof {
            reveal_strlit(" ▄▄▄ \n    █\n ▄▄▄ \n    █\n ▀▀▀ ");
        }
        " ▄▄▄ \n    █\n ▄▄▄ \n    █\n ▀▀▀ "
    } else if digit == '4' {
        proof {
            reveal_strlit("█   █\n█   █\n▀▀▀▀█\n    █\n    █");
        }
        "█   █\n█   █\n▀▀▀▀█\n    █\n    █"
    } else if digit == '5' {
        proof {
            reveal_strlit(" ▄▄▄ \n█    \n▀▀▀▄ \n    █\n ▀▀▀ ");
        }
        " ▄▄▄ \n█    \n▀▀▀▄ \n    █\n ▀▀▀ "
    } else if digit == '6' {
        proof {
            reveal_strlit(" ▄▄▄ \n█    \n█▄▄▄ \n█   █\n ▀▀▀ ");
        }
        " ▄▄▄ \n█    \n█▄▄▄ \n█   █\n ▀▀▀ "
    } else if digit == '7' {
        proof {
            reveal_strlit(" ▄▄▄ \n    █\n   █ \n  █  \n  █  ");
        }
        " ▄▄▄ \n    █\n   █ \n  █  \n  █  "
    } else if digit == '8' {
        proof {
            reveal_strlit(" ▄▄▄ \n█   █\n ▄▄▄ \n█   █\n ▀▀▀ ");
        }
        " ▄▄▄ \n█   █\n ▄▄▄ \n█   █\n ▀▀▀ "
    } else if digit == '9' {
        proof {
            reveal_strlit(" ▄▄▄ \n█   █\n ▀▀▀█\n    █\n ▀▀▀ ");
        }
        " ▄▄▄ \n█   █\n ▀▀▀█\n    █\n ▀▀▀ "
    } else {
        "\n  ?\n\n\n     "
    };
    glyph.to_owned()
}

/// What a box without a digit shows: five empty rows.
pub open spec fn blank_box() -> Seq<char> {
    "     \n     \n     \n     \n     "@
}

/// One of the boxes that the code is shown in.
#[derive(Debug, PartialEq, Eq)]
pub struct DigitBox {
    /// The rows drawn in the box.
    pub art: String,
    /// Whether the box holds a digit.
    pub filled: bool,
    /// Whether the next digit goes into this box.
    pub active: bool,
}

/// The view of a `DigitBox`.
pub struct DigitBoxView {
    pub art: Seq<char>,
    pub filled: bool,
    pub active: bool,
}

impl DigitBox {
    pub open spec fn view(&self) -> DigitBoxView {
        DigitBoxView { art: self.art@, filled: self.filled, active: self.active }
    }
}

/// The box at `index` for the code `code`: the boxes before the end of
/// the code hold its digits, and the box at its end is the active one.
pub open spec fn digit_box_of(code: Seq<char>, index: int) -> DigitBoxView {
    DigitBoxView {
        art: if index < code.len() {
            large_digit(code[index])
        } else {
            blank_box()
        },
        filled: index < code.len(),
        active: index == code.len(),
    }
}

/// How far the entry has come, as in "4/6".
pub open spec fn progress_of(code: Seq<char>) -> Seq<char> {
    decimal_digits(code.len()) + "/6"@
}

impl EnterCodeScreen {
    /// Whether every digit of the code has been entered.
    pub fn is_complete(&self) -> (r: bool)
        ensures
            r == self@.complete(),
    {
        self.len() >= CODE_LEN
    }

    /// How far the entry has come.
    pub fn progress(&self) -> (r: String)
        ensures
            r@ == progress_of(self@.code),
    {
        let mut out = decimal(self.len());
        out.append("/6");
        out
    }

    /// The box at `index`, counted from 0.
    pub fn digit_box(&self, index: usize) -> (r: DigitBox)
        ensures
            r@ == digit_box_of(self@.code, index as int),
    {
        let len: usize = self.len();
        let art = if index < len {
            get_large_digit(self.code.as_str().get_char(index))
        } else {
            "     \n     \n     \n     \n     ".to_owned()
        };
        DigitBox { art, filled: index < len, active: index == len }
    }

    /// The boxes of a complete code, first to last.
    pub fn digit_boxes(&self) -> (r: Vec<DigitBox>)
        ensures
            r@.len() == CODE_LEN,
            forall|i: int| 0 <= i < CODE_LEN ==> (#[trigger] r@[i])@ == digit_box_of(self@.code, i),
    {
        let mut boxes: Vec<DigitBox> = Vec::new();
        let mut i: usize = 0;
        while i < CODE_LEN
            invariant
                0 <= i <= CODE_LEN,
                boxes@.len() == i,
                forall|j: int| 0 <= j < i ==> (#[trigger] boxes@[j])@ == digit_box_of(self@.code, j),
            decreases CODE_LEN - i,
        {
            boxes.push(self.digit_box(i));
            i = i + 1;
        }
        boxes
    }
}

impl Clone for EnterCodeScreen {
    fn clone(&self) -> (r: Self)
        ensures
            r@ == self@,
    {
        proof {
            use_type_invariant(self);
        }
        EnterCodeScreen { code: self.code.clone() }
    }
}

} // verus!
