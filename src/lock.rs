//! Lock actions: which relic to lock, unlock or toggle.

use vstd::prelude::*;
use vstd::string::StringExecFns;
use crate::decimal::{digit_value, digits_read, is_digit};
use crate::text::chars_of;

verus! {

broadcast use vstd::string::group_string_axioms;

/// What to do with the lock of one relic.
#[derive(Clone, Copy, Debug, PartialEq, Eq, Structural)]
pub enum LockActionType {
    Lock,
    Unlock,
    Flip,
}

/// One lock action: the relic's index in scan order and the intent.
#[derive(Clone, Copy, Debug, PartialEq, Eq, Structural)]
pub struct LockAction {
    pub target: u32,
    pub kind: LockActionType,
}

/// The actions that toggle each listed index, in order.
pub open spec fn flips(indices: Seq<u32>) -> Seq<LockAction> {
    Seq::new(indices.len(), |i: int| LockAction { target: indices[i], kind: LockActionType::Flip })
}

impl LockAction {
    /// The actions of a legacy lock list: every listed index is toggled.
    pub fn from_v1(indices: &Vec<u32>) -> (r: Vec<LockAction>)
        ensures
            r@ == flips(indices@),
    {
        let mut r: Vec<LockAction> = Vec::new();
        let mut i: usize = 0;
        while i < indices.len()
            invariant
                i <= indices@.len(),
                r@.len() == i,
                forall|k: int|
                    0 <= k < i ==> #[trigger] r@[k] == (LockAction {
                        target: indices@[k],
                        kind: LockActionType::Flip,
                    }),
            decreases indices@.len() - i,
        {
            r.push(LockAction { target: indices[i], kind: LockActionType::Flip });
            i = i + 1;
        }
        assert(r@ =~= flips(indices@));
        r
    }
}

/// The decimal digit character for `d`.
pub open spec fn digit_char(d: int) -> char {
    if d == 0 {
        '0'
    } else if d == 1 {
        '1'
    } else if d == 2 {
        '2'
    } else if d == 3 {
        '3'
    } else if d == 4 {
        '4'
    } else if d == 5 {
        '5'
    } else if d == 6 {
        '6'
    } else if d == 7 {
        '7'
    } else if d == 8 {
        '8'
    } else {
        '9'
    }
}

/// The decimal text of `n`, without leading zeros.
pub open spec fn nat_text(n: nat) -> Seq<char>
    decreases n,
{
    if n < 10 {
        seq![digit_char(n as int)]
    } else {
        nat_text(n / 10).push(digit_char((n % 10) as int))
    }
}

/// The word that names a lock intent.
pub open spec fn kind_word(k: LockActionType) -> Seq<char> {
    match k {
        LockActionType::Lock => "lock"@,
        LockActionType::Unlock => "unlock"@,
        LockActionType::Flip => "flip"@,
    }
}

/// What follows the index of an action in its encoding.
pub open spec fn action_tail(k: LockActionType) -> Seq<char> {
    match k {
        LockActionType::Lock => ",\"action\":\"lock\"}"@,
        LockActionType::Unlock => ",\"action\":\"unlock\"}"@,
        LockActionType::Flip => ",\"action\":\"flip\"}"@,
    }
}

/// The encoding of one action: `{"index":N,"action":"lock"}`.
pub open spec fn action_text(a: LockAction) -> Seq<char> {
    "{\"index\":"@ + nat_text(a.target as nat) + action_tail(a.kind)
}

/// The actions' encodings joined by commas.
pub open spec fn actions_text(a: Seq<LockAction>) -> Seq<char>
    decreases a.len(),
{
    if a.len() == 0 {
        Seq::empty()
    } else if a.len() == 1 {
        action_text(a[0])
    } else {
        action_text(a[0]) + seq![','] + actions_text(a.drop_first())
    }
}

/// The lock specification text of a sequence of actions: a JSON array.
pub open spec fn lock_json_of(a: Seq<LockAction>) -> Seq<char> {
    seq!['['] + actions_text(a) + seq![']']
}

/// `p` is a prefix of `t`.
pub open spec fn starts_with(t: Seq<char>, p: Seq<char>) -> bool {
    p.len() <= t.len() && t.subrange(0, p.len() as int) == p
}

/// How many digits `t` starts with.
pub open spec fn digit_run(t: Seq<char>) -> nat
    decreases t.len(),
{
    if t.len() > 0 && is_digit(t[0]) {
        1 + digit_run(t.drop_first())
    } else {
        0
    }
}

/// A run of digits without a superfluous leading zero, whose value fits a `u32`.
pub open spec fn index_digits(d: Seq<char>) -> bool {
    &&& d.len() > 0
    &&& (d.len() == 1 || d[0] != '0')
    &&& digits_read(d) <= u32::MAX
}

/// The intent whose tail `t` starts with, and the tail's length.
pub open spec fn tail_of(t: Seq<char>) -> Option<(LockActionType, nat)> {
    if starts_with(t, action_tail(LockActionType::Lock)) {
        Some((LockActionType::Lock, action_tail(LockActionType::Lock).len()))
    } else if starts_with(t, action_tail(LockActionType::Unlock)) {
        Some((LockActionType::Unlock, action_tail(LockActionType::Unlock).len()))
    } else if starts_with(t, action_tail(LockActionType::Flip)) {
        Some((LockActionType::Flip, action_tail(LockActionType::Flip).len()))
    } else {
        None
    }
}

/// The action encoded at the start of `t`, and the length of its encoding.
pub open spec fn action_at(t: Seq<char>) -> Option<(LockAction, nat)> {
    let head = "{\"index\":"@;
    if !starts_with(t, head) {
        None
    } else {
        let rest = t.subrange(head.len() as int, t.len() as int);
        let d = rest.subrange(0, digit_run(rest) as int);
        if !index_digits(d) {
            None
        } else {
            match tail_of(rest.subrange(d.len() as int, rest.len() as int)) {
                None => None,
                Some((k, n)) => Some(
                    (
                        LockAction { target: digits_read(d) as u32, kind: k },
                        head.len() + d.len() + n,
                    ),
                ),
            }
        }
    }
}

/// The actions of the array body `t` (what follows `[`), up to and
/// including the closing `]`.
pub open spec fn actions_at(t: Seq<char>) -> Option<Seq<LockAction>>
    decreases t.len(),
{
    match action_at(t) {
        None => None,
        Some((a, n)) => if n + 1 == t.len() && t[n as int] == ']' {
            Some(seq![a])
        } else if n < t.len() && t[n as int] == ',' {
            match actions_at(t.subrange(n + 1int, t.len() as int)) {
                None => None,
                Some(r) => Some(seq![a] + r),
            }
        } else {
            None
        },
    }
}

/// The actions a lock specification text holds; none unless it is the
/// exact encoding of some sequence of actions.
pub open spec fn lock_actions_of(t: Seq<char>) -> Option<Seq<LockAction>> {
    if t == seq!['[', ']'] {
        Some(Seq::empty())
    } else if t.len() > 0 && t[0] == '[' {
        actions_at(t.drop_first())
    } else {
        None
    }
}

proof fn lemma_digit_char(d: int)
    requires
        0 <= d < 10,
    ensures
        is_digit(digit_char(d)),
        digit_char(d) as u32 - '0' as u32 == d,
        digit_char(d) == '0' <==> d == 0,
{
}

proof fn lemma_nat_text(n: nat)
    ensures
        nat_text(n).len() >= 1,
        forall|i: int| 0 <= i < nat_text(n).len() ==> is_digit(#[trigger] nat_text(n)[i]),
        n >= 1 ==> nat_text(n)[0] != '0',
        digits_read(nat_text(n)) == n,
    decreases n,
{
    if n < 10 {
        lemma_digit_char(n as int);
        let t = nat_text(n);
        assert(t.drop_last() =~= Seq::<char>::empty());
        assert(t.last() == digit_char(n as int));
        assert(digits_read(t) == digits_read(t.drop_last()) * 10 + digit_value(t.last()));
    } else {
        lemma_nat_text(n / 10);
        lemma_digit_char((n % 10) as int);
        let t = nat_text(n);
        assert(t.drop_last() =~= nat_text(n / 10));
        assert(t[0] == nat_text(n / 10)[0]);
        assert(t.last() == digit_char((n % 10) as int));
        assert(digits_read(t) == digits_read(nat_text(n / 10)) * 10 + (n % 10));
        assert(n == (n / 10) * 10 + n % 10);
    }
}

proof fn lemma_digit_run_concat(d: Seq<char>, t: Seq<char>)
    requires
        forall|i: int| 0 <= i < d.len() ==> is_digit(#[trigger] d[i]),
        t.len() > 0 && !is_digit(t[0]),
    ensures
        digit_run(d + t) == d.len(),
    decreases d.len(),
{
    if d.len() == 0 {
        assert(d + t =~= t);
    } else {
        assert((d + t).drop_first() =~= d.drop_first() + t);
        lemma_digit_run_concat(d.drop_first(), t);
    }
}

proof fn lemma_tail_of(k: LockActionType, s: Seq<char>)
    ensures
        tail_of(action_tail(k) + s) == Some((k, action_tail(k).len())),
        action_tail(k).len() > 0,
        action_tail(k)[0] == ',',
{
    reveal_strlit(",\"action\":\"lock\"}");
    reveal_strlit(",\"action\":\"unlock\"}");
    reveal_strlit(",\"action\":\"flip\"}");
    let t = action_tail(k) + s;
    let lk = action_tail(LockActionType::Lock);
    let ul = action_tail(LockActionType::Unlock);
    assert(t.subrange(0, action_tail(k).len() as int) =~= action_tail(k));
    match k {
        LockActionType::Lock => {},
        LockActionType::Unlock => {
            assert(t[11] == 'u' && lk[11] == 'l');
            assert(t.subrange(0, lk.len() as int)[11] != lk[11]);
        },
        LockActionType::Flip => {
            assert(t[11] == 'f' && lk[11] == 'l' && ul[11] == 'u');
            assert(t.subrange(0, lk.len() as int)[11] != lk[11]);
            if ul.len() <= t.len() {
                assert(t.subrange(0, ul.len() as int)[11] != ul[11]);
            }
        },
    }
}

proof fn lemma_action_at(a: LockAction, s: Seq<char>)
    requires
        s.len() > 0,
    ensures
        action_at(action_text(a) + s) == Some((a, action_text(a).len())),
{
    let head = "{\"index\":"@;
    let d = nat_text(a.target as nat);
    let tail = action_tail(a.kind);
    let t = action_text(a) + s;
    lemma_nat_text(a.target as nat);
    lemma_tail_of(a.kind, s);
    assert(t =~= head + (d + (tail + s)));
    assert(t.subrange(0, head.len() as int) =~= head);
    let rest = t.subrange(head.len() as int, t.len() as int);
    assert(rest =~= d + (tail + s));
    lemma_digit_run_concat(d, tail + s);
    assert(rest.subrange(0, digit_run(rest) as int) =~= d);
    assert(rest.subrange(d.len() as int, rest.len() as int) =~= tail + s);
}

proof fn lemma_actions_at(a: Seq<LockAction>)
    requires
        a.len() >= 1,
    ensures
        actions_at(actions_text(a) + seq![']']) == Some(a),
    decreases a.len(),
{
    let t = actions_text(a) + seq![']'];
    if a.len() == 1 {
        lemma_action_at(a[0], seq![']']);
        assert(seq![a[0]] =~= a);
    } else {
        let rest = a.drop_first();
        let tail = seq![','] + actions_text(rest) + seq![']'];
        assert(t =~= action_text(a[0]) + tail);
        lemma_action_at(a[0], tail);
        let n = action_text(a[0]).len();
        assert(t[n as int] == ',');
        lemma_actions_text_nonempty(rest);
        assert(t.subrange(n + 1int, t.len() as int) =~= actions_text(rest) + seq![']']);
        lemma_actions_at(rest);
        assert(seq![a[0]] + rest =~= a);
    }
}

proof fn lemma_actions_text_nonempty(a: Seq<LockAction>)
    requires
        a.len() >= 1,
    ensures
        actions_text(a).len() >= 1,
{
    reveal_strlit("{\"index\":");
}

/// Reading back the lock specification text of any sequence of actions
/// gives that same sequence.
pub proof fn lemma_lock_json_round_trip(a: Seq<LockAction>)
    ensures
        lock_actions_of(lock_json_of(a)) == Some(a),
{
    let t = lock_json_of(a);
    if a.len() == 0 {
        assert(t =~= seq!['[', ']']);
        assert(a =~= Seq::<LockAction>::empty());
    } else {
        lemma_actions_text_nonempty(a);
        assert(t != seq!['[', ']']) by {
            assert(t.len() > 2);
        }
        assert(t.drop_first() =~= actions_text(a) + seq![']']);
        lemma_actions_at(a);
    }
}

proof fn lemma_actions_text_push(b: Seq<LockAction>, x: LockAction)
    ensures
        actions_text(b.push(x)) == if b.len() == 0 {
            action_text(x)
        } else {
            actions_text(b) + seq![','] + action_text(x)
        },
    decreases b.len(),
{
    let c = b.push(x);
    if b.len() == 0 {
        assert(c[0] == x);
    } else if b.len() == 1 {
        assert(c.drop_first() =~= seq![x]);
        assert(seq![x][0] == x);
        assert(actions_text(seq![x]) == action_text(x));
        assert(c[0] == b[0]);
        assert(actions_text(c) =~= actions_text(b) + seq![','] + action_text(x));
    } else {
        assert(c.drop_first() =~= b.drop_first().push(x));
        lemma_actions_text_push(b.drop_first(), x);
        assert(c[0] == b[0]);
        assert(actions_text(c) =~= actions_text(b) + seq![','] + action_text(x));
    }
}

fn digit_text(d: u32) -> (r: &'static str)
    requires
        d < 10,
    ensures
        r@ == seq![digit_char(d as int)],
{
    proof {
        reveal_strlit("0");
        reveal_strlit("1");
        reveal_strlit("2");
        reveal_strlit("3");
        reveal_strlit("4");
        reveal_strlit("5");
        reveal_strlit("6");
        reveal_strlit("7");
        reveal_strlit("8");
        reveal_strlit("9");
    }
    if d == 0 {
        "0"
    } else if d == 1 {
        "1"
    } else if d == 2 {
        "2"
    } else if d == 3 {
        "3"
    } else if d == 4 {
        "4"
    } else if d == 5 {
        "5"
    } else if d == 6 {
        "6"
    } else if d == 7 {
        "7"
    } else if d == 8 {
        "8"
    } else {
        "9"
    }
}

fn write_nat(out: &mut String, n: u32)
    ensures
        final(out)@ == old(out)@ + nat_text(n as nat),
    decreases n,
{
    if n >= 10 {
        write_nat(out, n / 10);
    }
    out.append(digit_text(n % 10));
    proof {
        if n >= 10 {
            assert(final(out)@ =~= old(out)@ + nat_text(n as nat));
        } else {
            assert(final(out)@ =~= old(out)@ + nat_text(n as nat));
        }
    }
}

fn tail_text(k: LockActionType) -> (r: &'static str)
    ensures
        r@ == action_tail(k),
{
    match k {
        LockActionType::Lock => ",\"action\":\"lock\"}",
        LockActionType::Unlock => ",\"action\":\"unlock\"}",
        LockActionType::Flip => ",\"action\":\"flip\"}",
    }
}

/// What `cs` holds from position `pos` on.
pub open spec fn rest_of(cs: Seq<char>, pos: int) -> Seq<char> {
    cs.subrange(pos, cs.len() as int)
}

/// Matches the literal `lit` at position `pos`; gives the position after it.
fn eat(cs: &Vec<char>, pos: usize, lit: &str) -> (r: Option<usize>)
    requires
        pos <= cs@.len(),
    ensures
        r is Some <==> starts_with(rest_of(cs@, pos as int), lit@),
        r matches Some(e) ==> e == pos + lit@.len(),
{
    let ls = chars_of(lit);
    let m = ls.len();
    let n = cs.len();
    if m > n - pos {
        return None;
    }
    let mut j: usize = 0;
    while j < m
        invariant
            ls@ == lit@,
            m == ls@.len(),
            n == cs@.len(),
            pos + m <= n,
            j <= m,
            forall|t: int| 0 <= t < j ==> cs@[pos + t] == ls@[t],
        decreases m - j,
    {
        if cs[pos + j] != ls[j] {
            assert(rest_of(cs@, pos as int).subrange(0, m as int)[j as int] != ls@[j as int]);
            return None;
        }
        j = j + 1;
    }
    assert(rest_of(cs@, pos as int).subrange(0, m as int) =~= lit@);
    Some(pos + m)
}

proof fn lemma_digit_run_exact(t: Seq<char>, k: int)
    requires
        0 <= k <= t.len(),
        forall|i: int| 0 <= i < k ==> is_digit(#[trigger] t[i]),
        k == t.len() || !is_digit(t[k]),
    ensures
        digit_run(t) == k,
    decreases k,
{
    if k > 0 {
        lemma_digit_run_exact(t.drop_first(), k - 1);
    }
}

proof fn lemma_digit_run_at_least(t: Seq<char>, k: int)
    requires
        0 <= k <= t.len(),
        forall|i: int| 0 <= i < k ==> is_digit(#[trigger] t[i]),
    ensures
        digit_run(t) >= k,
        forall|i: int| 0 <= i < digit_run(t) ==> is_digit(#[trigger] t[i]),
        digit_run(t) <= t.len(),
    decreases t.len(),
{
    if t.len() > 0 && is_digit(t[0]) {
        lemma_digit_run_at_least(t.drop_first(), if k > 0 {
            k - 1
        } else {
            0
        });
        assert forall|i: int| 0 <= i < digit_run(t) implies is_digit(#[trigger] t[i]) by {
            if i > 0 {
                assert(t[i] == t.drop_first()[i - 1]);
            }
        }
    }
}

/// Reads the action encoded at position `pos`; gives it with the position
/// after its encoding.
fn read_action(cs: &Vec<char>, pos: usize) -> (r: Option<(LockAction, usize)>)
    requires
        pos <= cs@.len(),
    ensures
        match r {
            Some((a, e)) => action_at(rest_of(cs@, pos as int)) == Some((a, (e - pos) as nat))
                && pos < e <= cs@.len(),
            None => action_at(rest_of(cs@, pos as int)) is None,
        },
{
    let ghost t = rest_of(cs@, pos as int);
    let ghost head = "{\"index\":"@;
    let q = match eat(cs, pos, "{\"index\":") {
        Some(q) => q,
        None => return None,
    };
    proof {
        reveal_strlit("{\"index\":");
    }
    let ghost rest = t.subrange(head.len() as int, t.len() as int);
    assert(rest =~= rest_of(cs@, q as int));
    let n = cs.len();
    let mut j: usize = q;
    let mut value: u64 = 0;
    while j < n && '0' <= cs[j] && cs[j] <= '9'
        invariant
            n == cs@.len(),
            q <= j <= n,
            rest == rest_of(cs@, q as int),
            t == rest_of(cs@, pos as int),
            head == "{\"index\":"@,
            starts_with(t, head),
            rest == t.subrange(head.len() as int, t.len() as int),
            forall|i: int| q <= i < j ==> is_digit(#[trigger] cs@[i]),
            value == digits_read(cs@.subrange(q as int, j as int)),
            value <= u32::MAX,
        decreases n - j,
    {
        let dv = (cs[j] as u32 - '0' as u32) as u64;
        let ghost p = cs@.subrange(q as int, j as int);
        let ghost grown = cs@.subrange(q as int, j + 1);
        assert(grown.drop_last() =~= p);
        assert(grown.last() == cs@[j as int]);
        value = value * 10 + dv;
        assert(digits_read(grown) == value);
        if value > u32::MAX as u64 {
            proof {
                assert forall|i: int| 0 <= i < j + 1 - q implies is_digit(#[trigger] rest[i]) by {
                    assert(rest[i] == cs@[q + i]);
                }
                lemma_digit_run_at_least(rest, j + 1 - q);
                let d = rest.subrange(0, digit_run(rest) as int);
                lemma_digits_prefix_bound(d, j + 1 - q);
                assert(d.subrange(0, j + 1 - q) =~= grown);
            }
            return None;
        }
        j = j + 1;
    }
    proof {
        assert forall|i: int| 0 <= i < j - q implies is_digit(#[trigger] rest[i]) by {
            assert(rest[i] == cs@[q + i]);
        }
        if j < n {
            assert(rest[j - q] == cs@[j as int]);
        }
        lemma_digit_run_exact(rest, j - q);
        assert(rest.subrange(0, digit_run(rest) as int) =~= cs@.subrange(q as int, j as int));
    }
    let run = j - q;
    if run == 0 || (run > 1 && cs[q] == '0') {
        proof {
            let d = cs@.subrange(q as int, j as int);
            assert(d.len() == 0 || (d.len() > 1 && d[0] == '0'));
            assert(!index_digits(d));
        }
        return None;
    }
    assert(rest.subrange(run as int, rest.len() as int) =~= rest_of(cs@, j as int));
    let (kind, e) = if let Some(e) = eat(cs, j, ",\"action\":\"lock\"}") {
        (LockActionType::Lock, e)
    } else if let Some(e) = eat(cs, j, ",\"action\":\"unlock\"}") {
        (LockActionType::Unlock, e)
    } else if let Some(e) = eat(cs, j, ",\"action\":\"flip\"}") {
        (LockActionType::Flip, e)
    } else {
        return None;
    };
    proof {
        reveal_strlit(",\"action\":\"lock\"}");
        reveal_strlit(",\"action\":\"unlock\"}");
        reveal_strlit(",\"action\":\"flip\"}");
    }
    Some((LockAction { target: value as u32, kind }, e))
}

proof fn lemma_digits_prefix_bound(d: Seq<char>, k: int)
    requires
        0 <= k <= d.len(),
        forall|i: int| 0 <= i < d.len() ==> is_digit(#[trigger] d[i]),
    ensures
        digits_read(d.subrange(0, k)) <= digits_read(d),
    decreases d.len(),
{
    if k < d.len() {
        let e = d.drop_last();
        lemma_digits_prefix_bound(e, k);
        assert(e.subrange(0, k) =~= d.subrange(0, k));
        lemma_digits_nonneg(e);
    } else {
        assert(d.subrange(0, k) =~= d);
    }
}

proof fn lemma_digits_nonneg(d: Seq<char>)
    requires
        forall|i: int| 0 <= i < d.len() ==> is_digit(#[trigger] d[i]),
    ensures
        digits_read(d) >= 0,
    decreases d.len(),
{
    if d.len() > 0 {
        lemma_digits_nonneg(d.drop_last());
    }
}

impl LockAction {
    /// The lock specification text of `actions`.
    pub fn to_lock_json(actions: &Vec<LockAction>) -> (r: String)
        ensures
            r@ == lock_json_of(actions@),
    {
        let mut out = String::new();
        out.append("[");
        proof {
            reveal_strlit("[");
            reveal_strlit(",");
            reveal_strlit("]");
            reveal_strlit("{\"index\":");
            assert(actions@.subrange(0, 0) =~= Seq::<LockAction>::empty());
        }
        let mut i: usize = 0;
        while i < actions.len()
            invariant
                i <= actions@.len(),
                out@ == seq!['['] + actions_text(actions@.subrange(0, i as int)),
            decreases actions@.len() - i,
        {
            proof {
                reveal_strlit(",");
            }
            let ghost before = out@;
            if i > 0 {
                out.append(",");
            }
            let ghost sep = out@;
            assert(sep =~= before + (if i > 0 {
                seq![',']
            } else {
                Seq::<char>::empty()
            }));
            out.append("{\"index\":");
            write_nat(&mut out, actions[i].target);
            out.append(tail_text(actions[i].kind));
            assert(out@ =~= sep + action_text(actions@[i as int]));
            proof {
                let b = actions@.subrange(0, i as int);
                assert(actions@.subrange(0, i + 1) =~= b.push(actions@[i as int]));
                lemma_actions_text_push(b, actions@[i as int]);
                assert(out@ =~= seq!['['] + actions_text(actions@.subrange(0, i + 1)));
            }
            i = i + 1;
        }
        out.append("]");
        assert(actions@.subrange(0, actions@.len() as int) =~= actions@);
        assert(out@ =~= lock_json_of(actions@));
        out
    }

    /// Reads a lock specification text; none unless it is exactly the
    /// encoding of some sequence of actions.
    pub fn from_lock_json(text: &str) -> (r: Option<Vec<LockAction>>)
        ensures
            match r {
                Some(v) => lock_actions_of(text@) == Some(v@),
                None => lock_actions_of(text@) is None,
            },
    {
        let cs = chars_of(text);
        let n = cs.len();
        if n == 2 && cs[0] == '[' && cs[1] == ']' {
            assert(text@ =~= seq!['[', ']']);
            return Some(Vec::new());
        }
        if n == 0 || cs[0] != '[' {
            return None;
        }
        proof {
            if text@ == seq!['[', ']'] {
                assert(text@[1] == ']');
            }
            assert(rest_of(cs@, 1) =~= text@.drop_first());
        }
        let mut out: Vec<LockAction> = Vec::new();
        let mut pos: usize = 1;
        while pos <= n
            invariant
                cs@ == text@,
                n == cs@.len(),
                1 <= pos <= n,
                lock_actions_of(text@) == match actions_at(rest_of(cs@, pos as int)) {
                    None => None,
                    Some(x) => Some(out@ + x),
                },
            decreases n - pos,
        {
            let ghost t = rest_of(cs@, pos as int);
            let (a, e) = match read_action(&cs, pos) {
                Some(p) => p,
                None => return None,
            };
            let ghost k = (e - pos) as nat;
            if e < n && e + 1 == n && cs[e] == ']' {
                assert(t[k as int] == ']');
                out.push(a);
                return Some(out);
            }
            if e < n && cs[e] == ',' {
                assert(t[k as int] == ',');
                assert(t.subrange(k + 1int, t.len() as int) =~= rest_of(cs@, e + 1));
                let ghost old_out = out@;
                out.push(a);
                assert(forall|x: Seq<LockAction>| old_out + (seq![a] + x) =~= out@ + x);
                pos = e + 1;
            } else {
                return None;
            }
        }
        None
    }
}

} // verus!
