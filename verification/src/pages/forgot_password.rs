//! The multi-step password reset flow: step navigation, e-mail masking,
//! the rate-limited resend, and the submit gates of each step.
use vstd::prelude::*;
use crate::components::registration_form::{spec_field_state, FieldState};
use crate::components::validation::{
    find_char, is_first_index, is_valid_email, password_requirements, passwords_match, spec_is_valid_email,
    spec_passwords_match, validate_password,
};
use crate::text::{
    char_len_utf8, char_utf8_len, decimal, encode_utf8_len, lemma_encode_utf8_len_take, lemma_take_len_mono,
    push_decimal, push_stars, repeated, text_eq, trim, trimmed,
};

verus! {

/// Step identifier for the forgot password flow.
#[derive(Debug, Clone, Copy, PartialEq, Eq, Structural)]
pub enum ForgotStep {
    /// Step 1: enter e-mail.
    Email,
    /// Step 2: verify code.
    VerifyCode,
    /// Step 3: new password.
    NewPassword,
    /// Step 4: success.
    Success,
}

impl ForgotStep {
    /// Returns the `data-step` attribute value.
    pub fn data_step(&self) -> (r: &'static str)
        ensures
            r@ == match *self {
                ForgotStep::Email => "1"@,
                ForgotStep::VerifyCode => "2"@,
                ForgotStep::NewPassword => "3"@,
                ForgotStep::Success => "4"@,
            },
    {
        match self {
            ForgotStep::Email => "1",
            ForgotStep::VerifyCode => "2",
            ForgotStep::NewPassword => "3",
            ForgotStep::Success => "4",
        }
    }

    /// Screen reader announcement text for this step.
    pub fn announcement(&self) -> (r: &'static str)
        ensures
            r@ == match *self {
                ForgotStep::Email => "Step 1: Enter your email address"@,
                ForgotStep::VerifyCode => "Step 2: Enter the verification code"@,
                ForgotStep::NewPassword => "Step 3: Create a new password"@,
                ForgotStep::Success => "Password updated successfully!"@,
            },
    {
        match self {
            ForgotStep::Email => "Step 1: Enter your email address",
            ForgotStep::VerifyCode => "Step 2: Enter the verification code",
            ForgotStep::NewPassword => "Step 3: Create a new password",
            ForgotStep::Success => "Password updated successfully!",
        }
    }
}

/// The step a successful submit leads to.
pub open spec fn spec_next_step(step: ForgotStep) -> ForgotStep {
    match step {
        ForgotStep::Email => ForgotStep::VerifyCode,
        ForgotStep::VerifyCode => ForgotStep::NewPassword,
        ForgotStep::NewPassword => ForgotStep::Success,
        ForgotStep::Success => ForgotStep::Success,
    }
}

/// The step shown after the current step's request succeeds.
pub fn next_step(step: ForgotStep) -> (r: ForgotStep)
    ensures
        r == spec_next_step(step),
{
    match step {
        ForgotStep::Email => ForgotStep::VerifyCode,
        ForgotStep::VerifyCode => ForgotStep::NewPassword,
        ForgotStep::NewPassword => ForgotStep::Success,
        ForgotStep::Success => ForgotStep::Success,
    }
}

/// What the back button does.
#[derive(Debug, Clone, Copy, PartialEq, Eq, Structural)]
pub enum BackAction {
    /// Leave the flow for the login page.
    ToLogin,
    /// Return to an earlier step (and announce it).
    ToStep(ForgotStep),
    /// Nothing (the success step has no back button).
    Stay,
}

/// The back button's effect on each step.
pub open spec fn spec_back_action(step: ForgotStep) -> BackAction {
    match step {
        ForgotStep::Email => BackAction::ToLogin,
        ForgotStep::VerifyCode => BackAction::ToStep(ForgotStep::Email),
        ForgotStep::NewPassword => BackAction::ToStep(ForgotStep::VerifyCode),
        ForgotStep::Success => BackAction::Stay,
    }
}

/// Back from the e-mail step leaves for login; from steps 2 and 3 it goes
/// one step back; on success it does nothing.
pub fn back_action(step: ForgotStep) -> (r: BackAction)
    ensures
        r == spec_back_action(step),
{
    match step {
        ForgotStep::Email => BackAction::ToLogin,
        ForgotStep::VerifyCode => BackAction::ToStep(ForgotStep::Email),
        ForgotStep::NewPassword => BackAction::ToStep(ForgotStep::VerifyCode),
        ForgotStep::Success => BackAction::Stay,
    }
}

/// Whether the back button is visible.
pub fn shows_back_button(step: ForgotStep) -> (r: bool)
    ensures
        r == (step != ForgotStep::Success),
{
    !matches!(step, ForgotStep::Success)
}

/// The back link target: the login page from step 1, none elsewhere.
pub fn back_href(step: ForgotStep) -> (r: Option<&'static str>)
    ensures
        step == ForgotStep::Email ==> (r matches Some(h) && h@ == "/login"@),
        step != ForgotStep::Email ==> r is None,
{
    match step {
        ForgotStep::Email => Some("/login"),
        _ => None,
    }
}

/// Going back from the step a success led to returns to the step before,
/// for the two steps that have a way back.
pub proof fn lemma_back_undoes_next(step: ForgotStep)
    requires
        step == ForgotStep::Email || step == ForgotStep::VerifyCode,
    ensures
        spec_back_action(spec_next_step(step)) == BackAction::ToStep(step),
{
}

/// `mask_email` is defined on `e`: without an `@`, or with a local part
/// of at most two bytes, or with a local part whose first two bytes end
/// on a character boundary (else slicing it would panic).
pub open spec fn mask_email_defined(e: Seq<char>) -> bool {
    forall|i: int|
        #![trigger is_first_index(e, '@', i)]
        is_first_index(e, '@', i) ==> encode_utf8_len(e.take(i)) <= 2 || exists|k: int|
            0 <= k <= i && encode_utf8_len(e.take(i).take(k)) == 2
}

/// The masked address: the local part's first two bytes kept and the
/// rest replaced by one `*` per byte (all of it when it has at most two
/// bytes); the domain unchanged. Text without `@` is returned as is.
pub open spec fn spec_mask_email(e: Seq<char>) -> Seq<char> {
    if exists|i: int| is_first_index(e, '@', i) {
        let i = choose|i: int| is_first_index(e, '@', i);
        let user = e.take(i);
        let domain = e.skip(i + 1);
        let ulen = encode_utf8_len(user);
        if ulen <= 2 {
            repeated('*', ulen) + "@"@ + domain
        } else {
            let k = choose|k: int| 0 <= k <= i && encode_utf8_len(user.take(k)) == 2;
            user.take(k) + repeated('*', (ulen - 2) as nat) + "@"@ + domain
        }
    } else {
        e
    }
}

/// Mask an e-mail address for display: `cameron@example.com` becomes
/// `ca*****@example.com`.
pub fn mask_email(email: &str) -> (r: String)
    requires
        mask_email_defined(email@),
    ensures
        r@ == spec_mask_email(email@),
{
    let ghost e = email@;
    match find_char(email, '@') {
        None => {
            assert forall|i: int| !is_first_index(e, '@', i) by {
                if is_first_index(e, '@', i) {
                    assert(e[i] == '@');
                }
            }
            email.to_owned()
        },
        Some(i) => {
            proof {
                assert forall|j: int| is_first_index(e, '@', j) implies j == i by {
                    if j < i {
                        assert(e[j] != '@');
                    }
                    if i < j {
                        assert(e[i as int] != '@');
                    }
                }
            }
            let n = email.unicode_len();
            let user = email.substring_char(0, i);
            let domain = email.substring_char(i + 1, n);
            assert(user@ =~= e.take(i as int));
            assert(domain@ =~= e.skip(i + 1));
            let ulen = user.as_bytes().len();
            let mut r = String::new();
            if ulen <= 2 {
                push_stars(&mut r, ulen);
            } else {
                // The prefix of the local part that fills its first two bytes.
                let m = user.unicode_len();
                let mut k: usize = 0;
                let mut bytes: usize = 0;
                while bytes < 2
                    invariant
                        m == user@.len(),
                        k <= m,
                        bytes == encode_utf8_len(user@.take(k as int)),
                        bytes <= 2,
                        ulen == encode_utf8_len(user@),
                        ulen > 2,
                        exists|k2: int| 0 <= k2 <= m && encode_utf8_len(user@.take(k2)) == 2,
                    decreases 2 - bytes,
                {
                    proof {
                        if k == m {
                            assert(user@.take(m as int) =~= user@);
                        }
                    }
                    let c = user.get_char(k);
                    proof {
                        lemma_encode_utf8_len_take(user@, k as int);
                        let k2 = choose|k2: int| 0 <= k2 <= m && encode_utf8_len(user@.take(k2)) == 2;
                        if k2 <= k {
                            lemma_take_len_mono(user@, k2, k as int);
                        } else {
                            lemma_take_len_mono(user@, k + 1, k2);
                        }
                    }
                    bytes = bytes + char_len_utf8(c);
                    k = k + 1;
                }
                proof {
                    let k2 = choose|k2: int| 0 <= k2 <= i && encode_utf8_len(e.take(i as int).take(k2)) == 2;
                    if k2 < k {
                        lemma_take_len_mono(user@, k2, k as int);
                    }
                    if k < k2 {
                        lemma_take_len_mono(user@, k as int, k2);
                    }
                }
                r.append(user.substring_char(0, k));
                push_stars(&mut r, ulen - 2);
            }
            proof {
                reveal_strlit("@");
            }
            r.append("@");
            r.append(domain);
            r
        },
    }
}

/// Resends allowed before the resend link locks.
pub const MAX_RESENDS: u32 = 3;

/// Seconds to wait after the resend number `count` (0-based) succeeded:
/// one minute after the first, ten after the second, none after that.
pub open spec fn spec_resend_cooldown(count: u32) -> i32 {
    if count == 0 {
        60
    } else if count == 1 {
        600
    } else {
        0
    }
}

/// Escalating cooldown after a successful resend.
pub fn resend_cooldown(count: u32) -> (r: i32)
    ensures
        r == spec_resend_cooldown(count),
{
    match count {
        0 => 60,
        1 => 600,
        _ => 0,
    }
}

/// The resend-code rate limit: resends done so far and the seconds left
/// before the next one may be asked for.
#[derive(Debug, Clone, Copy, PartialEq, Eq)]
pub struct ResendState {
    pub resend_count: u32,
    pub countdown_seconds: i32,
}

impl ResendState {
    /// No resend yet and no countdown.
    pub fn new() -> (r: Self)
        ensures
            r.resend_count == 0,
            r.countdown_seconds == 0,
    {
        ResendState { resend_count: 0, countdown_seconds: 0 }
    }

    /// Locked once [`MAX_RESENDS`] resends were made.
    pub open spec fn spec_is_locked(&self) -> bool {
        self.resend_count >= MAX_RESENDS
    }

    /// A resend may be asked for: no countdown running and not locked.
    pub open spec fn spec_can_resend(&self) -> bool {
        self.countdown_seconds <= 0 && !self.spec_is_locked()
    }

    /// Whether further resends are refused.
    pub fn is_locked(&self) -> (r: bool)
        ensures
            r == self.spec_is_locked(),
    {
        self.resend_count >= MAX_RESENDS
    }

    /// Whether a countdown is running.
    pub fn has_countdown(&self) -> (r: bool)
        ensures
            r == (self.countdown_seconds > 0),
    {
        self.countdown_seconds > 0
    }

    /// Whether the resend link is active.
    pub fn can_resend(&self) -> (r: bool)
        ensures
            r == self.spec_can_resend(),
    {
        self.countdown_seconds <= 0 && self.resend_count < MAX_RESENDS
    }

    /// Record a successful resend: count it and start its cooldown, if any.
    pub fn record_resend(&mut self)
        requires
            old(self).spec_can_resend(),
        ensures
            final(self).resend_count == old(self).resend_count + 1,
            final(self).countdown_seconds == if spec_resend_cooldown(old(self).resend_count) > 0 {
                spec_resend_cooldown(old(self).resend_count)
            } else {
                old(self).countdown_seconds
            },
    {
        let cooldown = resend_cooldown(self.resend_count);
        self.resend_count = self.resend_count + 1;
        if cooldown > 0 {
            self.countdown_seconds = cooldown;
        }
    }

    /// One second passes: a running countdown goes down by one.
    pub fn tick(&mut self)
        ensures
            final(self).resend_count == old(self).resend_count,
            final(self).countdown_seconds == if old(self).countdown_seconds > 0 {
                old(self).countdown_seconds - 1
            } else {
                old(self).countdown_seconds as int
            },
    {
        if self.countdown_seconds > 0 {
            self.countdown_seconds = self.countdown_seconds - 1;
        }
    }
}

/// After a resend that is not the last allowed one, no other resend can
/// be asked for until a cooldown has run out; after the last allowed one
/// resends stay locked.
pub proof fn lemma_resend_blocks_next(before: ResendState, after: ResendState)
    requires
        before.spec_can_resend(),
        after.resend_count == before.resend_count + 1,
        after.countdown_seconds == if spec_resend_cooldown(before.resend_count) > 0 {
            spec_resend_cooldown(before.resend_count)
        } else {
            before.countdown_seconds
        },
    ensures
        !after.spec_can_resend(),
        before.resend_count + 1 < MAX_RESENDS ==> after.countdown_seconds > 0,
        before.resend_count + 1 == MAX_RESENDS ==> after.spec_is_locked(),
{
}

/// `n` as two digits at least, zero-padded (`{:02}`).
pub open spec fn two_digits(n: nat) -> Seq<char> {
    if n < 10 {
        "0"@ + decimal(n)
    } else {
        decimal(n)
    }
}

/// The countdown as `MM:SS`, or the empty text when none is running.
pub open spec fn spec_countdown_display(secs: i32) -> Seq<char> {
    if secs <= 0 {
        ""@
    } else {
        two_digits((secs / 60) as nat) + ":"@ + two_digits((secs % 60) as nat)
    }
}

fn push_two_digits(out: &mut String, n: u64)
    ensures
        final(out)@ == old(out)@ + two_digits(n as nat),
{
    if n < 10 {
        proof {
            reveal_strlit("0");
        }
        out.append("0");
        let ghost mid = out@;
        push_decimal(out, n);
        assert(out@ =~= old(out)@ + two_digits(n as nat));
    } else {
        push_decimal(out, n);
    }
}

/// Countdown display (`MM:SS`) for the resend link.
pub fn countdown_display(secs: i32) -> (r: String)
    ensures
        r@ == spec_countdown_display(secs),
{
    let mut r = String::new();
    if secs <= 0 {
        proof {
            reveal_strlit("");
        }
        return r;
    }
    push_two_digits(&mut r, (secs / 60) as u64);
    proof {
        reveal_strlit(":");
    }
    r.append(":");
    push_two_digits(&mut r, (secs % 60) as u64);
    assert(r@ =~= spec_countdown_display(secs));
    r
}

/// The message under the e-mail field of step 1.
pub open spec fn spec_email_step_message(
    email: Seq<char>,
    touched: bool,
    backend_error: Option<Seq<char>>,
) -> Seq<char> {
    match backend_error {
        Some(e) => e,
        None => if touched && email.len() > 0 && !spec_is_valid_email(email) {
            "Please enter a valid email address"@
        } else {
            Seq::empty()
        },
    }
}

/// The message under the e-mail field of step 1: the backend's error
/// when there is one; else, once the field was submitted, a hint for a
/// non-empty address that is not valid; else nothing.
pub fn email_step_message(email: &str, touched: bool, backend_error: &Option<String>) -> (r: String)
    ensures
        r@ == spec_email_step_message(
            email@,
            touched,
            match *backend_error {
                Some(e) => Some(e@),
                None => None,
            },
        ),
{
    match backend_error {
        Some(e) => e.clone(),
        None => {
            if touched && email.unicode_len() > 0 && !is_valid_email(email) {
                "Please enter a valid email address".to_owned()
            } else {
                String::new()
            }
        },
    }
}

/// The state of the e-mail field of step 1: a backend error marks it
/// invalid even when the address is well formed.
pub fn email_field_state(email: &str, has_backend_error: bool) -> (r: FieldState)
    ensures
        r == spec_field_state(email@.len() == 0, spec_is_valid_email(email@) && !has_backend_error),
{
    if email.unicode_len() == 0 {
        FieldState::Empty
    } else if is_valid_email(email) && !has_backend_error {
        FieldState::Valid
    } else {
        FieldState::Invalid
    }
}

/// The state of the code field of step 2: invalid while a backend error
/// is shown.
pub fn code_field_state(code: &str, has_backend_error: bool) -> (r: FieldState)
    ensures
        r == spec_field_state(code@.len() == 0, !has_backend_error),
{
    if code.unicode_len() == 0 {
        FieldState::Empty
    } else if has_backend_error {
        FieldState::Invalid
    } else {
        FieldState::Valid
    }
}

/// Whether a failed reset request is reported next to the field (the
/// codes `31901` and `31903`) rather than in a toast.
pub fn reset_error_is_inline(code: &str) -> (r: bool)
    ensures
        r == (code@ == "31901"@ || code@ == "31903"@),
{
    text_eq(code, "31901") || text_eq(code, "31903")
}

/// The code to verify: the input, trimmed, or the message asking for it
/// when nothing is left.
pub fn verification_code(input: &str) -> (r: Result<&str, &'static str>)
    ensures
        match r {
            Ok(c) => c@ == trimmed(input@) && c@.len() > 0,
            Err(m) => trimmed(input@).len() == 0 && m@ == "Please enter the verification code"@,
        },
{
    let t = trim(input);
    if t.unicode_len() == 0 {
        Err("Please enter the verification code")
    } else {
        Ok(t)
    }
}

/// The new password may be submitted: it meets every rule, the
/// confirmation matches, and no request is pending.
pub fn new_password_can_submit(password: &str, confirm: &str, pending: bool) -> (r: bool)
    ensures
        r == (password_requirements(password@).spec_is_sufficient() && spec_passwords_match(
            password@,
            confirm@,
        ) && !pending),
{
    validate_password(password).requirements.is_sufficient() && passwords_match(password, confirm)
        && !pending
}

} // verus!
