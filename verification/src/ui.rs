//! Decisions behind the user interface: element ids, export file names,
//! component class names, list and accordion state, navigation
//! breadcrumbs and the outcome of an import action.
use vstd::prelude::*;
use crate::course::{Course, Note};
use crate::import_job::ImportJob;
use crate::plan::Plan;
use crate::ids::{Uuid, uuid_parse};
use crate::text::{decimal, push_char, push_decimal, push_str_to};
use crate::course::str_equal;

verus! {

// ---------------------------------------------------------------------
// Accessibility
// ---------------------------------------------------------------------

/// The hook that would keep focus inside an open dialog; it has no effect,
/// focus handling is left to the platform.
pub fn use_focus_trap() {
}

/// The hook for moving focus between menu items with a roving tab index;
/// it has no effect.
pub fn use_roving_tabindex() {
}

/// The hook for giving focus back to the element that had it; it has no
/// effect.
pub fn use_focus_restore() {
}

/// The hook for arrow-key navigation; it has no effect.
pub fn use_keyboard_navigation() {
}

/// The hook for announcing a message to screen readers; it has no effect.
pub fn announce_to_screen_reader(_msg: &str) {
}

/// The source of numbers for element ids. The application keeps one for
/// the whole process; numbering starts at 1 and wraps around after the
/// largest `usize`, as an atomic counter's `fetch_add` does.
#[derive(Debug)]
pub struct IdCounter {
    next: usize,
}

impl IdCounter {
    /// The number the next id will carry.
    pub closed spec fn next_number(self) -> nat {
        self.next as nat
    }

    /// A counter whose first id carries the number 1.
    pub fn new() -> (c: IdCounter)
        ensures
            c.next_number() == 1,
    {
        IdCounter { next: 1 }
    }
}

/// The id text for a prefix and a number: "<prefix>-<number>".
pub open spec fn id_text(prefix: Seq<char>, n: nat) -> Seq<char> {
    prefix + "-"@ + decimal(n)
}

/// A unique element id "<prefix>-<n>", with `n` taken from the counter,
/// which then moves on by one.
pub fn generate_id(prefix: &str, counter: &mut IdCounter) -> (r: String)
    ensures
        r@ == id_text(prefix@, old(counter).next_number()),
        final(counter).next_number() == if old(counter).next_number() < usize::MAX {
            old(counter).next_number() + 1
        } else {
            0
        },
        final(counter).next_number() == number_after_calls(old(counter).next_number(), 1),
{
    let id = counter.next;
    proof {
        assert(number_after_calls(counter.next as nat, 0) == counter.next as nat);
    }
    counter.next = if counter.next < usize::MAX {
        counter.next + 1
    } else {
        0
    };
    let mut out = String::from_str(prefix);
    push_str_to(&mut out, "-");
    push_decimal(&mut out, id as u64);
    out
}

/// Digits are distinct characters.
proof fn lemma_digit_char_injective(a: nat, b: nat)
    requires
        a < 10,
        b < 10,
        digit_char_eq(a, b),
    ensures
        a == b,
{
}

spec fn digit_char_eq(a: nat, b: nat) -> bool {
    crate::text::digit_char(a) == crate::text::digit_char(b)
}

/// The decimal rendering is never empty.
proof fn lemma_decimal_nonempty(n: nat)
    ensures
        decimal(n).len() >= 1,
    decreases n,
{
    if n >= 10 {
        lemma_decimal_nonempty(n / 10);
    }
}

/// Distinct numbers have distinct decimal renderings.
pub proof fn lemma_decimal_injective(n: nat, m: nat)
    requires
        decimal(n) == decimal(m),
    ensures
        n == m,
    decreases n,
{
    if n < 10 && m < 10 {
        assert(decimal(n) =~= seq![crate::text::digit_char(n)]);
        assert(decimal(m) =~= seq![crate::text::digit_char(m)]);
        assert(decimal(n)[0] == crate::text::digit_char(n));
        assert(decimal(m)[0] == crate::text::digit_char(m));
        assert(digit_char_eq(n, m));
        lemma_digit_char_injective(n, m);
    } else if n >= 10 && m >= 10 {
        let dn = decimal(n);
        let dm = decimal(m);
        assert(dn.last() == dm.last());
        assert(dn.drop_last() =~= decimal(n / 10));
        assert(dm.drop_last() =~= decimal(m / 10));
        assert(digit_char_eq(n % 10, m % 10));
        lemma_digit_char_injective(n % 10, m % 10);
        lemma_decimal_injective(n / 10, m / 10);
    } else if n < 10 {
        lemma_decimal_nonempty(m / 10);
        assert(decimal(m).len() >= 2);
    } else {
        lemma_decimal_nonempty(n / 10);
        assert(decimal(n).len() >= 2);
    }
}

/// Every character of a decimal rendering is a digit '0' to '9'.
proof fn lemma_decimal_digits(n: nat)
    ensures
        forall|i: int| 0 <= i < decimal(n).len() ==> '0' <= #[trigger] decimal(n)[i] <= '9',
    decreases n,
{
    if n >= 10 {
        lemma_decimal_digits(n / 10);
        assert forall|i: int| 0 <= i < decimal(n).len() implies '0' <= #[trigger] decimal(n)[i]
            <= '9' by {
            if i < decimal(n / 10).len() {
                assert(decimal(n)[i] == decimal(n / 10)[i]);
            }
        }
    }
}

/// Ids for different numbers differ, whatever the prefixes: the number
/// is the run of digits after the last '-', so no two ids generated from
/// different counter readings coincide.
pub proof fn lemma_generated_ids_distinct(prefix_a: Seq<char>, n: nat, prefix_b: Seq<char>, m: nat)
    requires
        n != m,
    ensures
        id_text(prefix_a, n) != id_text(prefix_b, m),
{
    reveal_strlit("-");
    let a = id_text(prefix_a, n);
    let b = id_text(prefix_b, m);
    if a == b {
        let dn = decimal(n);
        let dm = decimal(m);
        lemma_decimal_digits(n);
        lemma_decimal_digits(m);
        let len = a.len();
        assert(a =~= prefix_a + "-"@ + dn);
        assert(b =~= prefix_b + "-"@ + dm);
        assert(forall|i: int| 0 <= i < dn.len() ==> a[len - dn.len() + i] == dn[i]);
        assert(forall|i: int| 0 <= i < dm.len() ==> b[len - dm.len() + i] == dm[i]);
        assert(a[len - dn.len() - 1] == '-');
        assert(b[len - dm.len() - 1] == '-');
        if dn.len() < dm.len() {
            let i = dm.len() - dn.len() - 1;
            assert(b[len - dm.len() + i] == dm[i]);
            assert('0' <= dm[i] <= '9');
        } else if dm.len() < dn.len() {
            let i = dn.len() - dm.len() - 1;
            assert(a[len - dn.len() + i] == dn[i]);
            assert('0' <= dn[i] <= '9');
        } else {
            assert(dn =~= dm) by {
                assert forall|i: int| 0 <= i < dn.len() implies dn[i] == dm[i] by {
                    assert(a[len - dn.len() + i] == dn[i]);
                    assert(b[len - dm.len() + i] == dm[i]);
                }
            }
            lemma_decimal_injective(n, m);
        }
    }
}

/// The number a counter starting at `start` carries after `k` ids were
/// generated from it, stepping as `generate_id` does.
pub open spec fn number_after_calls(start: nat, k: nat) -> nat
    decreases k,
{
    if k == 0 {
        start
    } else {
        let previous = number_after_calls(start, (k - 1) as nat);
        if previous < usize::MAX {
            previous + 1
        } else {
            0
        }
    }
}

/// Before the counter wraps, `k` calls move it on by exactly `k`.
proof fn lemma_number_after_calls(start: nat, k: nat)
    requires
        start + k <= usize::MAX,
    ensures
        number_after_calls(start, k) == start + k,
    decreases k,
{
    if k > 0 {
        lemma_number_after_calls(start, (k - 1) as nat);
    }
}

/// Ids generated from one counter never repeat: while fewer than
/// `usize::MAX` ids have come from a counter made by `IdCounter::new`, the
/// `j`-th id carries the number `j + 1`, and the ids of two different calls
/// differ whatever prefixes they were given.
pub proof fn lemma_counter_ids_never_repeat(i: nat, j: nat, prefix_a: Seq<char>, prefix_b: Seq<char>)
    requires
        i < j,
        j < usize::MAX,
    ensures
        number_after_calls(1, i) == i + 1,
        number_after_calls(1, j) == j + 1,
        id_text(prefix_a, number_after_calls(1, i)) != id_text(prefix_b, number_after_calls(1, j)),
{
    lemma_number_after_calls(1, i);
    lemma_number_after_calls(1, j);
    lemma_generated_ids_distinct(prefix_a, i + 1, prefix_b, j + 1);
}

// ---------------------------------------------------------------------
// Export file names
// ---------------------------------------------------------------------

/// Characters kept in a file name: ASCII letters and digits, '-', '_'
/// and ' '.
pub open spec fn is_kept_file_char(c: char) -> bool {
    ('a' <= c && c <= 'z') || ('A' <= c && c <= 'Z') || ('0' <= c && c <= '9') || c == '-' || c
        == '_' || c == ' '
}

/// The kept characters of a text, in order.
pub open spec fn kept_chars(s: Seq<char>) -> Seq<char>
    decreases s.len(),
{
    if s.len() == 0 {
        seq![]
    } else if is_kept_file_char(s.last()) {
        kept_chars(s.drop_last()).push(s.last())
    } else {
        kept_chars(s.drop_last())
    }
}

/// A text without its leading spaces.
pub open spec fn strip_leading_spaces(s: Seq<char>) -> Seq<char>
    decreases s.len(),
{
    if s.len() > 0 && s[0] == ' ' {
        strip_leading_spaces(s.drop_first())
    } else {
        s
    }
}

/// A text without its trailing spaces.
pub open spec fn strip_trailing_spaces(s: Seq<char>) -> Seq<char>
    decreases s.len(),
{
    if s.len() > 0 && s.last() == ' ' {
        strip_trailing_spaces(s.drop_last())
    } else {
        s
    }
}

/// How a kept character appears in the file name: spaces become '_' and
/// capital letters become small ones.
pub open spec fn file_name_char(c: char) -> char {
    if c == ' ' {
        '_'
    } else if 'A' <= c && c <= 'Z' {
        ((c as u8) + 32) as char
    } else {
        c
    }
}

/// The file name `sanitize_filename` makes of a text.
pub open spec fn sanitized(s: Seq<char>) -> Seq<char> {
    let trimmed = strip_trailing_spaces(strip_leading_spaces(kept_chars(s)));
    if trimmed.len() == 0 {
        "course-notes"@
    } else {
        trimmed.map_values(|c: char| file_name_char(c))
    }
}

/// Whether a text is already a file name: kept characters only, none a
/// space or a capital letter.
pub open spec fn is_clean_name(u: Seq<char>) -> bool {
    forall|i: int|
        0 <= i < u.len() ==> is_kept_file_char(#[trigger] u[i]) && u[i] != ' ' && !('A' <= u[i]
            && u[i] <= 'Z')
}

proof fn lemma_kept_chars_are_kept(s: Seq<char>)
    ensures
        forall|i: int| 0 <= i < kept_chars(s).len() ==> is_kept_file_char(#[trigger] kept_chars(s)[i]),
    decreases s.len(),
{
    if s.len() > 0 {
        lemma_kept_chars_are_kept(s.drop_last());
        let k = kept_chars(s.drop_last());
        if is_kept_file_char(s.last()) {
            assert forall|i: int| 0 <= i < kept_chars(s).len() implies is_kept_file_char(
                #[trigger] kept_chars(s)[i],
            ) by {
                if i < k.len() {
                    assert(kept_chars(s)[i] == k[i]);
                }
            }
        }
    }
}

proof fn lemma_kept_chars_identity(u: Seq<char>)
    requires
        forall|i: int| 0 <= i < u.len() ==> is_kept_file_char(#[trigger] u[i]),
    ensures
        kept_chars(u) == u,
    decreases u.len(),
{
    if u.len() > 0 {
        lemma_kept_chars_identity(u.drop_last());
        assert(u.drop_last().push(u.last()) =~= u);
    }
}

proof fn lemma_strip_leading_suffix(s: Seq<char>)
    ensures
        strip_leading_spaces(s).len() <= s.len(),
        strip_leading_spaces(s) == s.subrange(
            s.len() - strip_leading_spaces(s).len(),
            s.len() as int,
        ),
        strip_leading_spaces(s).len() > 0 ==> strip_leading_spaces(s)[0] != ' ',
    decreases s.len(),
{
    if s.len() > 0 && s[0] == ' ' {
        lemma_strip_leading_suffix(s.drop_first());
        let r = strip_leading_spaces(s.drop_first());
        assert(s.drop_first().subrange(s.drop_first().len() - r.len(), s.drop_first().len() as int)
            =~= s.subrange(s.len() - r.len(), s.len() as int));
    } else {
        assert(s.subrange(0, s.len() as int) =~= s);
    }
}

proof fn lemma_strip_trailing_prefix(s: Seq<char>)
    ensures
        strip_trailing_spaces(s).len() <= s.len(),
        strip_trailing_spaces(s) == s.subrange(0, strip_trailing_spaces(s).len() as int),
        strip_trailing_spaces(s).len() > 0 ==> strip_trailing_spaces(s).last() != ' ',
    decreases s.len(),
{
    if s.len() > 0 && s.last() == ' ' {
        lemma_strip_trailing_prefix(s.drop_last());
        let r = strip_trailing_spaces(s.drop_last());
        assert(s.drop_last().subrange(0, r.len() as int) =~= s.subrange(0, r.len() as int));
    } else {
        assert(s.subrange(0, s.len() as int) =~= s);
    }
}

proof fn lemma_file_name_char_clean(c: char)
    requires
        is_kept_file_char(c),
    ensures
        is_kept_file_char(file_name_char(c)),
        file_name_char(c) != ' ',
        !('A' <= file_name_char(c) && file_name_char(c) <= 'Z'),
{
    if 'A' <= c && c <= 'Z' {
        assert(65 <= (c as u8) <= 90);
        assert(97 <= ((c as u8) + 32) <= 122);
    }
}

proof fn lemma_clean_name_fixed(u: Seq<char>)
    requires
        u.len() > 0,
        is_clean_name(u),
    ensures
        sanitized(u) == u,
{
    lemma_kept_chars_identity(u);
    assert(strip_leading_spaces(u) == u);
    assert(strip_trailing_spaces(u) == u);
    assert(u.map_values(|c: char| file_name_char(c)) =~= u);
}

/// Sanitizing a file name twice gives what sanitizing it once gave: the
/// result holds only small letters, digits, '-' and '_'.
pub proof fn lemma_sanitize_idempotent(s: Seq<char>)
    ensures
        is_clean_name(sanitized(s)),
        sanitized(sanitized(s)) == sanitized(s),
{
    let kept = kept_chars(s);
    lemma_kept_chars_are_kept(s);
    let front = strip_leading_spaces(kept);
    lemma_strip_leading_suffix(kept);
    let trimmed = strip_trailing_spaces(front);
    lemma_strip_trailing_prefix(front);
    if trimmed.len() == 0 {
        reveal_strlit("course-notes");
        assert(is_clean_name("course-notes"@));
        lemma_clean_name_fixed("course-notes"@);
    } else {
        assert forall|i: int| 0 <= i < trimmed.len() implies is_kept_file_char(#[trigger] trimmed[i]) by {
            assert(trimmed[i] == front[i]);
            assert(front[i] == kept[kept.len() - front.len() + i]);
        }
        let t = trimmed.map_values(|c: char| file_name_char(c));
        assert forall|i: int| 0 <= i < t.len() implies is_kept_file_char(#[trigger] t[i]) && t[i] != ' '
            && !('A' <= t[i] && t[i] <= 'Z') by {
            lemma_file_name_char_clean(trimmed[i]);
        }
        lemma_clean_name_fixed(t);
    }
}

/// Whether a character is kept in a file name.
fn keeps_file_char(c: char) -> (r: bool)
    ensures
        r == is_kept_file_char(c),
{
    ('a' <= c && c <= 'z') || ('A' <= c && c <= 'Z') || ('0' <= c && c <= '9') || c == '-' || c
        == '_' || c == ' '
}

/// How a kept character is written in the file name.
fn to_file_name_char(c: char) -> (r: char)
    ensures
        r == file_name_char(c),
{
    if c == ' ' {
        '_'
    } else if 'A' <= c && c <= 'Z' {
        ((c as u8) + 32) as char
    } else {
        c
    }
}

/// Stripping leading spaces from a text that starts at `a` gives the
/// suffix from the first non-space.
proof fn lemma_strip_leading(s: Seq<char>, a: int)
    requires
        0 <= a <= s.len(),
        forall|j: int| 0 <= j < a ==> s[j] == ' ',
        a < s.len() ==> s[a] != ' ',
    ensures
        strip_leading_spaces(s) == s.subrange(a, s.len() as int),
    decreases a,
{
    if a > 0 {
        lemma_strip_leading(s.drop_first(), a - 1);
        assert(s.drop_first().subrange(a - 1, s.drop_first().len() as int) =~= s.subrange(
            a,
            s.len() as int,
        ));
    } else {
        assert(s.subrange(0, s.len() as int) =~= s);
    }
}

/// Stripping trailing spaces from a text that ends at `b` gives the
/// prefix up to the last non-space.
proof fn lemma_strip_trailing(s: Seq<char>, b: int)
    requires
        0 <= b <= s.len(),
        forall|j: int| b <= j < s.len() ==> s[j] == ' ',
        b > 0 ==> s[b - 1] != ' ',
    ensures
        strip_trailing_spaces(s) == s.subrange(0, b),
    decreases s.len() - b,
{
    if b < s.len() {
        lemma_strip_trailing(s.drop_last(), b);
        assert(s.drop_last().subrange(0, b) =~= s.subrange(0, b));
    } else {
        assert(s.subrange(0, b) =~= s);
    }
}

/// Makes a file name from a text: keeps ASCII letters, digits, '-', '_'
/// and spaces, trims spaces at both ends, turns the remaining spaces into
/// '_' and lower-cases; an empty result becomes "course-notes".
pub fn sanitize_filename(input: &str) -> (r: String)
    ensures
        r@ == sanitized(input@),
{
    let n = input.unicode_len();
    let mut cleaned: Vec<char> = Vec::new();
    let mut i: usize = 0;
    while i < n
        invariant
            n == input@.len(),
            i <= n,
            cleaned@ == kept_chars(input@.subrange(0, i as int)),
        decreases n - i,
    {
        let c = input.get_char(i);
        proof {
            assert(input@.subrange(0, i + 1).drop_last() =~= input@.subrange(0, i as int));
        }
        if keeps_file_char(c) {
            cleaned.push(c);
        }
        i = i + 1;
    }
    assert(input@.subrange(0, n as int) =~= input@);
    let ghost kept = cleaned@;
    let len = cleaned.len();
    let mut a: usize = 0;
    while a < len && cleaned[a] == ' '
        invariant
            len == kept.len(),
            cleaned@ == kept,
            a <= len,
            forall|j: int| 0 <= j < a ==> kept[j] == ' ',
        decreases len - a,
    {
        a = a + 1;
    }
    let mut b: usize = len;
    while b > a && cleaned[b - 1] == ' '
        invariant
            len == kept.len(),
            cleaned@ == kept,
            a <= b <= len,
            forall|j: int| b <= j < len ==> kept[j] == ' ',
        decreases b,
    {
        b = b - 1;
    }
    proof {
        lemma_strip_leading(kept, a as int);
        let front = kept.subrange(a as int, len as int);
        lemma_strip_trailing(front, (b - a) as int);
        assert(front.subrange(0, (b - a) as int) =~= kept.subrange(a as int, b as int));
    }
    if a == b {
        return String::from_str("course-notes");
    }
    let mut out = String::new();
    let mut k: usize = a;
    while k < b
        invariant
            len == kept.len(),
            cleaned@ == kept,
            a <= k <= b <= len,
            out@ == kept.subrange(a as int, k as int).map_values(|c: char| file_name_char(c)),
        decreases b - k,
    {
        let ghost before = out@;
        push_char(&mut out, to_file_name_char(cleaned[k]));
        proof {
            assert(kept.subrange(a as int, k + 1).map_values(|c: char| file_name_char(c))
                =~= before.push(file_name_char(kept[k as int])));
        }
        k = k + 1;
    }
    out
}

/// The Markdown file name offered when exporting a course's notes: the
/// sanitized course name, or "course-notes" when the course is unknown,
/// followed by ".md".
pub fn default_course_filename(course_name: Option<&str>) -> (r: String)
    ensures
        r@ == match course_name {
            Some(name) => sanitized(name@),
            None => sanitized("course-notes"@),
        } + ".md"@,
{
    let mut out = match course_name {
        Some(name) => sanitize_filename(name),
        None => sanitize_filename("course-notes"),
    };
    push_str_to(&mut out, ".md");
    out
}

// ---------------------------------------------------------------------
// Component classes
// ---------------------------------------------------------------------

/// Button sizes.
#[derive(Clone, Copy, Debug, PartialEq, Eq, Structural)]
pub enum ButtonSize {
    Small,
    Medium,
    Large,
}

/// Button styles.
#[derive(Clone, Copy, Debug, PartialEq, Eq, Structural)]
pub enum ButtonVariant {
    Primary,
    Secondary,
    Outline,
    Transparent,
    Destructive,
}

/// The HTML type of a button.
#[derive(Clone, Copy, Debug, PartialEq, Eq, Structural)]
pub enum ButtonType {
    Button,
    Submit,
    Reset,
}

/// Where a button's icon goes.
#[derive(Clone, Copy, Debug, PartialEq, Eq, Structural)]
pub enum IconPosition {
    Left,
    Right,
    Only,
}

/// Card styles.
#[derive(Clone, Copy, Debug, PartialEq, Eq, Structural)]
pub enum CardVariant {
    Elevated,
    Outlined,
    Filled,
}

/// Card sizes.
#[derive(Clone, Copy, Debug, PartialEq, Eq, Structural)]
pub enum CardSize {
    Small,
    Medium,
    Large,
}

/// How a card reacts to the pointer.
#[derive(Clone, Copy, Debug, PartialEq, Eq, Structural)]
pub enum CardInteraction {
    Static,
    Clickable,
    Hoverable,
}

impl Default for ButtonSize {
    fn default() -> (r: ButtonSize)
        ensures
            r == ButtonSize::Medium,
    {
        ButtonSize::Medium
    }
}

impl Default for ButtonVariant {
    fn default() -> (r: ButtonVariant)
        ensures
            r == ButtonVariant::Primary,
    {
        ButtonVariant::Primary
    }
}

impl Default for ButtonType {
    fn default() -> (r: ButtonType)
        ensures
            r == ButtonType::Button,
    {
        ButtonType::Button
    }
}

impl Default for CardVariant {
    fn default() -> (r: CardVariant)
        ensures
            r == CardVariant::Elevated,
    {
        CardVariant::Elevated
    }
}

impl Default for CardSize {
    fn default() -> (r: CardSize)
        ensures
            r == CardSize::Medium,
    {
        CardSize::Medium
    }
}

impl Default for CardInteraction {
    fn default() -> (r: CardInteraction)
        ensures
            r == CardInteraction::Static,
    {
        CardInteraction::Static
    }
}

impl ButtonSize {
    /// The CSS class of the size.
    pub fn as_class(&self) -> (r: &'static str)
        ensures
            r@ == match *self {
                ButtonSize::Small => "button--sm"@,
                ButtonSize::Medium => "button--md"@,
                ButtonSize::Large => "button--lg"@,
            },
    {
        match self {
            ButtonSize::Small => "button--sm",
            ButtonSize::Medium => "button--md",
            ButtonSize::Large => "button--lg",
        }
    }
}

impl ButtonVariant {
    /// The CSS class of the style.
    pub fn as_class(&self) -> (r: &'static str)
        ensures
            r@ == match *self {
                ButtonVariant::Primary => "button--primary"@,
                ButtonVariant::Secondary => "button--secondary"@,
                ButtonVariant::Outline => "button--outline"@,
                ButtonVariant::Transparent => "button--ghost"@,
                ButtonVariant::Destructive => "button--destructive"@,
            },
    {
        match self {
            ButtonVariant::Primary => "button--primary",
            ButtonVariant::Secondary => "button--secondary",
            ButtonVariant::Outline => "button--outline",
            ButtonVariant::Transparent => "button--ghost",
            ButtonVariant::Destructive => "button--destructive",
        }
    }
}

impl ButtonType {
    /// The value of the HTML `type` attribute.
    pub fn as_str(&self) -> (r: &'static str)
        ensures
            r@ == match *self {
                ButtonType::Button => "button"@,
                ButtonType::Submit => "submit"@,
                ButtonType::Reset => "reset"@,
            },
    {
        match self {
            ButtonType::Button => "button",
            ButtonType::Submit => "submit",
            ButtonType::Reset => "reset",
        }
    }
}

impl CardVariant {
    /// The CSS class of the style.
    pub fn as_class(&self) -> (r: &'static str)
        ensures
            r@ == match *self {
                CardVariant::Elevated => "card--elevated"@,
                CardVariant::Outlined => "card--outlined"@,
                CardVariant::Filled => "card--filled"@,
            },
    {
        match self {
            CardVariant::Elevated => "card--elevated",
            CardVariant::Outlined => "card--outlined",
            CardVariant::Filled => "card--filled",
        }
    }
}

impl CardSize {
    /// The CSS class of the size.
    pub fn as_class(&self) -> (r: &'static str)
        ensures
            r@ == match *self {
                CardSize::Small => "card--sm"@,
                CardSize::Medium => "card--md"@,
                CardSize::Large => "card--lg"@,
            },
    {
        match self {
            CardSize::Small => "card--sm",
            CardSize::Medium => "card--md",
            CardSize::Large => "card--lg",
        }
    }
}

/// The class attribute of a badge: "badge badge-<color> <class>", with
/// color "primary" and no extra class by default.
pub fn badge_class(color: Option<&str>, class: Option<&str>) -> (r: String)
    ensures
        r@ == "badge badge-"@ + match color {
            Some(c) => c@,
            None => "primary"@,
        } + " "@ + match class {
            Some(c) => c@,
            None => ""@,
        },
{
    let mut out = String::from_str("badge badge-");
    match color {
        Some(c) => push_str_to(&mut out, c),
        None => push_str_to(&mut out, "primary"),
    }
    push_str_to(&mut out, " ");
    match class {
        Some(c) => push_str_to(&mut out, c),
        None => push_str_to(&mut out, ""),
    }
    out
}

/// The CSS class of a button style.
pub open spec fn button_variant_text(v: ButtonVariant) -> Seq<char> {
    match v {
        ButtonVariant::Primary => "button--primary"@,
        ButtonVariant::Secondary => "button--secondary"@,
        ButtonVariant::Outline => "button--outline"@,
        ButtonVariant::Transparent => "button--ghost"@,
        ButtonVariant::Destructive => "button--destructive"@,
    }
}

/// The CSS class of a button size.
pub open spec fn button_size_text(s: ButtonSize) -> Seq<char> {
    match s {
        ButtonSize::Small => "button--sm"@,
        ButtonSize::Medium => "button--md"@,
        ButtonSize::Large => "button--lg"@,
    }
}

/// `" " + class` when the flag is set, nothing otherwise.
pub open spec fn flag_class(set: bool, class: Seq<char>) -> Seq<char> {
    if set {
        " "@ + class
    } else {
        ""@
    }
}

/// The class attribute of a button: "button", its style and its size,
/// then the full-width, loading and icon-only classes where they apply,
/// then the custom class, all separated by single spaces.
pub open spec fn button_class_text(
    variant: ButtonVariant,
    size: ButtonSize,
    full_width: bool,
    loading: bool,
    icon_only: bool,
    class: Option<Seq<char>>,
) -> Seq<char> {
    "button "@ + button_variant_text(variant) + " "@ + button_size_text(size) + flag_class(
        full_width,
        "button--full-width"@,
    ) + flag_class(loading, "button--loading"@) + flag_class(icon_only, "button--icon-only"@)
        + match class {
        Some(c) => " "@ + c,
        None => ""@,
    }
}

/// Whether a button shows only its icon: it has one, placed as the only
/// content.
pub fn shows_icon_only(has_icon: bool, position: IconPosition) -> (r: bool)
    ensures
        r == (has_icon && position == IconPosition::Only),
{
    has_icon && matches!(position, IconPosition::Only)
}

/// The class attribute of a button (see `button_class_text`).
pub fn button_classes(
    variant: ButtonVariant,
    size: ButtonSize,
    full_width: bool,
    loading: bool,
    icon_only: bool,
    class: Option<&str>,
) -> (r: String)
    ensures
        r@ == button_class_text(variant, size, full_width, loading, icon_only, match class {
            Some(c) => Some(c@),
            None => None,
        }),
{
    proof {
        reveal_strlit(" ");
        reveal_strlit("");
        reveal_strlit("button ");
        reveal_strlit(" button--full-width");
        reveal_strlit("button--full-width");
        reveal_strlit(" button--loading");
        reveal_strlit("button--loading");
        reveal_strlit(" button--icon-only");
        reveal_strlit("button--icon-only");
    }
    let mut out = String::from_str("button ");
    push_str_to(&mut out, variant.as_class());
    push_str_to(&mut out, " ");
    push_str_to(&mut out, size.as_class());
    let ghost base = "button "@ + button_variant_text(variant) + " "@ + button_size_text(size);
    assert(out@ =~= base);
    if full_width {
        push_str_to(&mut out, " button--full-width");
    }
    let ghost g1 = base + flag_class(full_width, "button--full-width"@);
    assert(out@ =~= g1);
    if loading {
        push_str_to(&mut out, " button--loading");
    }
    let ghost g2 = g1 + flag_class(loading, "button--loading"@);
    assert(out@ =~= g2);
    if icon_only {
        push_str_to(&mut out, " button--icon-only");
    }
    let ghost g3 = g2 + flag_class(icon_only, "button--icon-only"@);
    assert(out@ =~= g3);
    match class {
        Some(c) => {
            push_str_to(&mut out, " ");
            push_str_to(&mut out, c);
            assert(out@ =~= g3 + (" "@ + c@));
        },
        None => {
            assert(out@ =~= g3 + ""@);
        },
    }
    out
}

/// A loading button is disabled as well.
pub fn button_disabled(disabled: bool, loading: bool) -> (r: bool)
    ensures
        r == (disabled || loading),
{
    disabled || loading
}

/// Whether a key press clicks a button: Enter or the space bar, on a
/// button that is not disabled.
pub fn key_activates_button(key: &str, is_disabled: bool) -> (r: bool)
    ensures
        r == (!is_disabled && (key@ == "Enter"@ || key@ == " "@)),
{
    !is_disabled && (str_equal(key, "Enter") || str_equal(key, " "))
}

/// The class of the span that holds a button's icon.
pub fn button_icon_class(position: IconPosition) -> (r: &'static str)
    ensures
        r@ == match position {
            IconPosition::Left => "button__icon button__icon--left"@,
            IconPosition::Right => "button__icon button__icon--right"@,
            IconPosition::Only => "button__icon"@,
        },
{
    match position {
        IconPosition::Left => "button__icon button__icon--left",
        IconPosition::Right => "button__icon button__icon--right",
        IconPosition::Only => "button__icon",
    }
}

/// An entry of a generic list: an id, its data, and whether it can be
/// chosen.
#[derive(Clone, Debug, PartialEq)]
pub struct BaseListItem<T> {
    pub id: String,
    pub data: T,
    pub disabled: bool,
}

impl<T> BaseListItem<T> {
    /// An entry that can be chosen.
    pub fn new(id: String, data: T) -> (r: BaseListItem<T>)
        ensures
            r.id == id,
            r.data == data,
            !r.disabled,
    {
        BaseListItem { id, data, disabled: false }
    }

    /// The same entry, no longer selectable.
    pub fn disabled(self) -> (r: BaseListItem<T>)
        ensures
            r.id == self.id,
            r.data == self.data,
            r.disabled,
    {
        BaseListItem { id: self.id, data: self.data, disabled: true }
    }
}

/// The class attribute of a list of the given variant: "grid" with its
/// column classes (three responsive columns by default), "menu", "list",
/// or the variant name itself; the extra class comes last.
pub open spec fn list_class_text(variant: Seq<char>, class: Seq<char>, grid_cols: Option<Seq<char>>) -> Seq<char> {
    if variant == "grid"@ {
        "grid "@ + match grid_cols {
            Some(c) => c,
            None => "grid-cols-1 md:grid-cols-2 lg:grid-cols-3"@,
        } + " gap-4 "@ + class
    } else if variant == "menu"@ {
        "menu w-full "@ + class
    } else if variant == "list"@ {
        "space-y-2 "@ + class
    } else {
        variant + " "@ + class
    }
}

/// The class attribute of a list.
pub fn list_classes(variant: &str, class: &str, grid_cols: Option<&str>) -> (r: String)
    ensures
        r@ == list_class_text(variant@, class@, match grid_cols {
            Some(c) => Some(c@),
            None => None,
        }),
{
    let mut out = String::new();
    if str_equal(variant, "grid") {
        push_str_to(&mut out, "grid ");
        match grid_cols {
            Some(c) => push_str_to(&mut out, c),
            None => push_str_to(&mut out, "grid-cols-1 md:grid-cols-2 lg:grid-cols-3"),
        }
        push_str_to(&mut out, " gap-4 ");
    } else if str_equal(variant, "menu") {
        push_str_to(&mut out, "menu w-full ");
    } else if str_equal(variant, "list") {
        push_str_to(&mut out, "space-y-2 ");
    } else {
        push_str_to(&mut out, variant);
        push_str_to(&mut out, " ");
    }
    push_str_to(&mut out, class);
    out
}

/// The class attribute of a dialog box: its size class, then the
/// surface, shadow and position classes, then the extra class.
pub fn modal_box_class(size: &str, class: &str) -> (r: String)
    ensures
        r@ == size@ + " bg-base-100 shadow-xl relative "@ + class@,
{
    let mut out = String::new();
    push_str_to(&mut out, size);
    push_str_to(&mut out, " bg-base-100 shadow-xl relative ");
    push_str_to(&mut out, class);
    out
}

/// The accordion panel open after a header is clicked: clicking the open
/// panel closes it (no panel open), clicking another opens that one.
pub open spec fn accordion_after_click(open: Option<usize>, clicked: usize) -> Option<usize> {
    if open == Some(clicked) {
        None
    } else {
        Some(clicked)
    }
}

/// The accordion panel open after a header is clicked.
pub fn accordion_toggle(open: Option<usize>, clicked: usize) -> (r: Option<usize>)
    ensures
        r == accordion_after_click(open, clicked),
{
    match open {
        Some(i) => if i == clicked {
            None
        } else {
            Some(clicked)
        },
        None => Some(clicked),
    }
}

/// Two clicks on the same header: a panel that was open is open again
/// afterwards; in every other case no panel is open.
pub proof fn lemma_accordion_double_click(open: Option<usize>, clicked: usize)
    ensures
        accordion_after_click(accordion_after_click(open, clicked), clicked) == if open == Some(
            clicked,
        ) {
            Some(clicked)
        } else {
            None
        },
{
}

/// The progress badge of a course card by its rounded percentage: its
/// label and color.
pub fn progress_badge(percent: u8) -> (r: (&'static str, &'static str))
    ensures
        percent >= 100 ==> r.0@ == "Completed"@ && r.1@ == "success"@,
        0 < percent < 100 ==> r.0@ == "In Progress"@ && r.1@ == "accent"@,
        percent == 0 ==> r.0@ == "Not Started"@ && r.1@ == "base-300"@,
{
    if percent >= 100 {
        ("Completed", "success")
    } else if percent > 0 {
        ("In Progress", "accent")
    } else {
        ("Not Started", "base-300")
    }
}

// ---------------------------------------------------------------------
// Application state
// ---------------------------------------------------------------------

/// Where a course stands in the course list.
#[derive(Clone, Copy, Debug, PartialEq, Eq, Structural)]
pub enum CourseStatus {
    Structured,
    Unstructured,
    Pending,
}

/// The tabs of the side panel.
#[derive(Clone, Copy, Debug, PartialEq, Eq, Structural)]
pub enum ContextualPanelTab {
    Notes,
    Chatbot,
}

/// The video the side panel's notes refer to.
#[derive(Clone, Debug, PartialEq)]
pub struct VideoContext {
    pub course_id: Uuid,
    pub video_index: usize,
    pub video_title: String,
    pub module_title: String,
}

/// The side panel: whether it is open, its tab, and the video in view.
#[derive(Clone, Debug, PartialEq)]
pub struct ContextualPanelState {
    pub is_open: bool,
    pub active_tab: ContextualPanelTab,
    pub video_context: Option<VideoContext>,
}

impl Default for ContextualPanelState {
    /// Closed, on the notes tab, with no video.
    fn default() -> (r: ContextualPanelState)
        ensures
            !r.is_open,
            r.active_tab == ContextualPanelTab::Notes,
            r.video_context is None,
    {
        ContextualPanelState { is_open: false, active_tab: ContextualPanelTab::Notes, video_context: None }
    }
}

/// What the application holds while it runs.
#[derive(Clone, Debug)]
pub struct AppState {
    pub courses: Vec<Course>,
    pub plans: Vec<Plan>,
    pub notes: Vec<Note>,
    pub active_import: Option<ImportJob>,
    pub contextual_panel: ContextualPanelState,
    pub sidebar_open_mobile: bool,
}

impl Default for AppState {
    /// No courses, plans, notes or import, the side panel closed on its
    /// notes tab, the sidebar closed.
    fn default() -> (r: AppState)
        ensures
            r.courses@.len() == 0,
            r.plans@.len() == 0,
            r.notes@.len() == 0,
            r.active_import is None,
            !r.contextual_panel.is_open,
            r.contextual_panel.active_tab == ContextualPanelTab::Notes,
            r.contextual_panel.video_context is None,
            !r.sidebar_open_mobile,
    {
        AppState {
            courses: Vec::new(),
            plans: Vec::new(),
            notes: Vec::new(),
            active_import: None,
            contextual_panel: ContextualPanelState::default(),
            sidebar_open_mobile: false,
        }
    }
}

// ---------------------------------------------------------------------
// Navigation
// ---------------------------------------------------------------------

/// The pages of the application.
#[derive(Clone, Debug, PartialEq)]
pub enum Route {
    Home,
    Dashboard,
    AllCourses,
    PlanView { course_id: String },
    Settings,
    AddCourse,
    ToastTest,
}

/// One step of the breadcrumb trail.
#[derive(Clone, Debug, PartialEq)]
pub struct BreadcrumbItem {
    pub label: String,
    pub route: Option<Route>,
    pub active: bool,
}

/// The label of the course with an id: its name when one of the courses
/// has that id (the first such), else "Unknown Course".
pub open spec fn course_label(courses: Seq<Course>, id: u128) -> Seq<char>
    decreases courses.len(),
{
    if courses.len() == 0 {
        "Unknown Course"@
    } else if courses[0].id.value == id {
        courses[0].name@
    } else {
        course_label(courses.drop_first(), id)
    }
}

/// A trail step: label, route (as a flag for the dashboard link) and
/// whether it is the current page.
pub open spec fn crumb_is(b: BreadcrumbItem, label: Seq<char>, to_dashboard: bool, active: bool) -> bool {
    &&& b.label@ == label
    &&& if to_dashboard {
        b.route == Some(Route::Dashboard)
    } else {
        b.route is None
    }
    &&& b.active == active
}

/// The label of the current page for routes other than the plan view.
pub open spec fn page_label(route: Route) -> Seq<char> {
    match route {
        Route::Home => "Home"@,
        Route::Dashboard => "Dashboard"@,
        Route::AllCourses => "All Courses"@,
        Route::Settings => "Settings"@,
        Route::AddCourse => "Add Course"@,
        Route::ToastTest => "Toast Test"@,
        Route::PlanView { .. } => ""@,
    }
}

/// The trail for a route: the page alone for Home and Dashboard, else the
/// Dashboard link and then the page; for a plan the page is the course's
/// name, "Unknown Course" when no course has the id, and the trail is just
/// "Invalid Course" when the id does not parse.
pub open spec fn trail_is(r: Seq<BreadcrumbItem>, route: Route, courses: Seq<Course>) -> bool {
    match route {
        Route::Home | Route::Dashboard => r.len() == 1 && crumb_is(r[0], page_label(route), false, true),
        Route::PlanView { course_id } => match uuid_parse(course_id@) {
            None => r.len() == 1 && crumb_is(r[0], "Invalid Course"@, false, true),
            Some(id) => r.len() == 2 && crumb_is(r[0], "Dashboard"@, true, false) && crumb_is(
                r[1],
                course_label(courses, id),
                false,
                true,
            ),
        },
        _ => r.len() == 2 && crumb_is(r[0], "Dashboard"@, true, false) && crumb_is(
            r[1],
            page_label(route),
            false,
            true,
        ),
    }
}

fn crumb(label: &str, to_dashboard: bool, active: bool) -> (b: BreadcrumbItem)
    ensures
        crumb_is(b, label@, to_dashboard, active),
{
    BreadcrumbItem {
        label: String::from_str(label),
        route: if to_dashboard {
            Some(Route::Dashboard)
        } else {
            None
        },
        active,
    }
}

/// Finds the name of the course with an id.
fn find_course_label(courses: &[Course], id: &Uuid) -> (r: String)
    ensures
        r@ == course_label(courses@, id.value),
{
    let mut i: usize = 0;
    assert(courses@.subrange(0, courses@.len() as int) =~= courses@);
    while i < courses.len()
        invariant
            i <= courses@.len(),
            course_label(courses@, id.value) == course_label(
                courses@.subrange(i as int, courses@.len() as int),
                id.value,
            ),
        decreases courses.len() - i,
    {
        proof {
            let rest = courses@.subrange(i as int, courses@.len() as int);
            assert(rest.drop_first() =~= courses@.subrange(i + 1, courses@.len() as int));
            assert(rest[0] == courses@[i as int]);
        }
        if courses[i].id.value == id.value {
            return courses[i].name.clone();
        }
        i = i + 1;
    }
    String::from_str("Unknown Course")
}

/// The breadcrumb trail for the current page.
pub fn generate_breadcrumbs(current_route: Route, courses: &[Course]) -> (r: Vec<BreadcrumbItem>)
    ensures
        trail_is(r@, current_route, courses@),
{
    proof {
        assert(courses@.subrange(0, courses@.len() as int) =~= courses@);
    }
    match current_route {
        Route::Home => vec![crumb("Home", false, true)],
        Route::Dashboard => vec![crumb("Dashboard", false, true)],
        Route::PlanView { course_id } => {
            match Uuid::parse_str(course_id.as_str()) {
                None => vec![crumb("Invalid Course", false, true)],
                Some(id) => {
                    let name = find_course_label(courses, &id);
                    let current = BreadcrumbItem { label: name, route: None, active: true };
                    vec![crumb("Dashboard", true, false), current]
                },
            }
        },
        Route::Settings => vec![crumb("Dashboard", true, false), crumb("Settings", false, true)],
        Route::AddCourse => vec![crumb("Dashboard", true, false), crumb("Add Course", false, true)],
        Route::AllCourses => vec![crumb("Dashboard", true, false), crumb("All Courses", false, true)],
        Route::ToastTest => vec![crumb("Dashboard", true, false), crumb("Toast Test", false, true)],
    }
}

// ---------------------------------------------------------------------
// Import actions
// ---------------------------------------------------------------------

/// The outcome of an import action.
#[derive(Clone, Debug, PartialEq)]
pub enum ImportResult {
    Success { course_id: Uuid, modules: usize, videos: usize },
    Error(String),
}

/// The result an import action reports: its counts on success, else the
/// failure prefixed by what was being done ("Failed to fetch playlist: "
/// for playlists, "Failed to scan local media: " for folders); no backend
/// gives "Backend not initialized".
pub fn import_outcome(
    backend_ready: bool,
    from_playlist: bool,
    outcome: Result<(Uuid, usize, usize), String>,
) -> (r: ImportResult)
    ensures
        !backend_ready ==> (r matches ImportResult::Error(m) && m@ == "Backend not initialized"@),
        backend_ready ==> match outcome {
            Ok((id, modules, videos)) => r == ImportResult::Success { course_id: id, modules, videos },
            Err(e) => r matches ImportResult::Error(m) && m@ == (if from_playlist {
                "Failed to fetch playlist: "@
            } else {
                "Failed to scan local media: "@
            }) + e@,
        },
{
    if !backend_ready {
        return ImportResult::Error(String::from_str("Backend not initialized"));
    }
    match outcome {
        Ok((course_id, modules, videos)) => ImportResult::Success { course_id, modules, videos },
        Err(e) => {
            let mut m = if from_playlist {
                String::from_str("Failed to fetch playlist: ")
            } else {
                String::from_str("Failed to scan local media: ")
            };
            push_str_to(&mut m, e.as_str());
            ImportResult::Error(m)
        },
    }
}

} // verus!
