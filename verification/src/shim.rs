//! The shim generator.
//!
//! Before the user's program first runs, script source is appended to it
//! that (1) builds namespaced proxy objects so script-visible
//! `imports.<iface>.<fn>(...)` calls route through the native dispatch
//! entry point by numeric index, and (2) wraps every export in an
//! async-capable namespace whose returned promise, upon settling,
//! notifies the scheduler with the export's index and the settled value.
//!
//! Identifier translation: interface and function names may contain
//! characters illegal in script identifiers (`:`, `/`, `-`); these are
//! rewritten to `_`. Two distinct names that rewrite to the same script
//! identifier are a configuration error surfaced at generation time,
//! never at call time.
//!
//! Every generated text is pinned exactly by a specification function
//! over the dispatch table, so the shape of the emitted source is part
//! of this module's contract.

use vstd::prelude::*;

use crate::error::ProtocolError;
use crate::table::{DispatchTable, FuncDesc, interface_key};

verus! {

/// One character of an identifier after translation: the separators the
/// script grammar refuses become `_`.
pub open spec fn sanitize_char(c: char) -> char {
    if c == ':' || c == '/' || c == '-' {
        '_'
    } else {
        c
    }
}

/// An identifier after translation, character for character.
pub open spec fn sanitized(s: Seq<char>) -> Seq<char> {
    s.map_values(|c: char| sanitize_char(c))
}

/// A literal as built text.
pub fn text_of(s: &str) -> (r: Vec<char>)
    ensures
        r@ == s@,
{
    let mut r: Vec<char> = Vec::new();
    append_str(&mut r, s);
    proof {
        assert(r@ =~= s@);
    }
    r
}

/// Translate an identifier for use in script source.
pub fn sanitize_name(s: &str) -> (r: Vec<char>)
    ensures
        r@ == sanitized(s@),
{
    let n = s.unicode_len();
    let mut r: Vec<char> = Vec::new();
    let mut i: usize = 0;
    while i < n
        invariant
            n == s@.len(),
            i <= n,
            r@.len() == i,
            forall|j: int| 0 <= j < i ==> r@[j] == sanitize_char(s@[j]),
        decreases n - i,
    {
        let c = s.get_char(i);
        let t = if c == ':' || c == '/' || c == '-' {
            '_'
        } else {
            c
        };
        r.push(t);
        i = i + 1;
    }
    proof {
        assert(r@ =~= sanitized(s@));
    }
    r
}

/// The decimal digit character for `d`.
pub open spec fn spec_digit(d: nat) -> char {
    if d == 0 {
        '0'
    } else if d == 1 {
        '1'
    } else if d == 2 {
        '2'
    } else if d == 3 {
        '3'
    } else if d == 4 {
        '4'
    } else if d == 5 {
        '5'
    } else if d == 6 {
        '6'
    } else if d == 7 {
        '7'
    } else if d == 8 {
        '8'
    } else {
        '9'
    }
}

/// The decimal rendering of `n`, most significant digit first, no
/// leading zeros (a single `0` for zero).
pub open spec fn dec_digits(n: nat) -> Seq<char>
    decreases n,
{
    if n < 10 {
        seq![spec_digit(n)]
    } else {
        dec_digits(n / 10).push(spec_digit(n % 10))
    }
}

/// The decimal digit character for `d`.
fn digit_char(d: u32) -> (c: char)
    requires
        d < 10,
    ensures
        c == spec_digit(d as nat),
{
    if d == 0 {
        '0'
    } else if d == 1 {
        '1'
    } else if d == 2 {
        '2'
    } else if d == 3 {
        '3'
    } else if d == 4 {
        '4'
    } else if d == 5 {
        '5'
    } else if d == 6 {
        '6'
    } else if d == 7 {
        '7'
    } else if d == 8 {
        '8'
    } else {
        '9'
    }
}

/// Render `n` in decimal.
pub fn dec_u32(n: u32) -> (r: Vec<char>)
    ensures
        r@ == dec_digits(n as nat),
    decreases n,
{
    if n < 10 {
        let mut r: Vec<char> = Vec::new();
        r.push(digit_char(n));
        proof {
            assert(r@ =~= dec_digits(n as nat));
        }
        r
    } else {
        let mut r = dec_u32(n / 10);
        r.push(digit_char(n % 10));
        r
    }
}

/// Append a literal to the text under construction.
pub fn append_str(out: &mut Vec<char>, s: &str)
    ensures
        final(out)@ == old(out)@ + s@,
{
    let n = s.unicode_len();
    let mut i: usize = 0;
    while i < n
        invariant
            n == s@.len(),
            i <= n,
            out@.len() == old(out)@.len() + i,
            out@ == old(out)@ + s@.take(i as int),
        decreases n - i,
    {
        let c = s.get_char(i);
        out.push(c);
        i = i + 1;
        proof {
            assert(out@ =~= old(out)@ + s@.take(i as int));
        }
    }
    proof {
        assert(out@ =~= old(out)@ + s@);
    }
}

/// Append already-built text to the text under construction.
pub fn append_chars(out: &mut Vec<char>, s: &Vec<char>)
    ensures
        final(out)@ == old(out)@ + s@,
{
    let n = s.len();
    let mut i: usize = 0;
    while i < n
        invariant
            n == s@.len(),
            i <= n,
            out@ == old(out)@ + s@.take(i as int),
        decreases n - i,
    {
        let c = s[i];
        out.push(c);
        i = i + 1;
        proof {
            assert(out@ =~= old(out)@ + s@.take(i as int));
        }
    }
    proof {
        assert(out@ =~= old(out)@ + s@);
    }
}

/// The generated parameter list for a function of `n` parameters:
/// `p0,p1,...`.
pub open spec fn params_text(n: nat) -> Seq<char>
    decreases n,
{
    if n == 0 {
        Seq::empty()
    } else if n == 1 {
        "p"@ + dec_digits(0)
    } else {
        params_text((n - 1) as nat) + ","@ + "p"@ + dec_digits((n - 1) as nat)
    }
}

/// Append the parameter list `p0,p1,...` for `n` parameters.
fn append_params(out: &mut Vec<char>, n: u32)
    ensures
        final(out)@ == old(out)@ + params_text(n as nat),
{
    let mut i: u32 = 0;
    while i < n
        invariant
            i <= n,
            out@ == old(out)@ + params_text(i as nat),
        decreases n - i,
    {
        if i > 0 {
            append_str(out, ",");
        }
        append_str(out, "p");
        let d = dec_u32(i);
        append_chars(out, &d);
        i = i + 1;
        proof {
            assert(out@ =~= old(out)@ + params_text(i as nat));
        }
    }
}

/// The dispatch expression an import call compiles to: a direct call
/// into the native entry point for the synchronous convention, a promise
/// whose settlement the scheduler drives for the asynchronous one.
pub open spec fn import_body_text(index: nat, d: FuncDesc) -> Seq<char> {
    if d.is_async {
        "new Promise(function(a,b){componentize_js_call_import("@ + dec_digits(index) + ",["@
            + params_text(d.param_count as nat) + "],a,b)})"@
    } else {
        "componentize_js_call_import("@ + dec_digits(index) + ",["@ + params_text(
            d.param_count as nat,
        ) + "])"@
    }
}

/// One import's property in the generated proxy object.
pub open spec fn import_entry_text(index: nat, d: FuncDesc) -> Seq<char> {
    sanitized(d.name@) + ":function("@ + params_text(d.param_count as nat) + "){return "@
        + import_body_text(index, d) + "}"@
}

/// Append one import's proxy property.
fn append_import_entry(out: &mut Vec<char>, index: u32, d: &FuncDesc)
    ensures
        final(out)@ == old(out)@ + import_entry_text(index as nat, *d),
{
    let name = sanitize_name(d.name.as_str());
    append_chars(out, &name);
    append_str(out, ":function(");
    append_params(out, d.param_count);
    append_str(out, "){return ");
    if d.is_async {
        append_str(out, "new Promise(function(a,b){componentize_js_call_import(");
        let ix = dec_u32(index);
        append_chars(out, &ix);
        append_str(out, ",[");
        append_params(out, d.param_count);
        append_str(out, "],a,b)})");
    } else {
        append_str(out, "componentize_js_call_import(");
        let ix = dec_u32(index);
        append_chars(out, &ix);
        append_str(out, ",[");
        append_params(out, d.param_count);
        append_str(out, "])");
    }
    append_str(out, "}");
    proof {
        assert(out@ =~= old(out)@ + import_entry_text(index as nat, *d));
    }
}

/// The path from the user's `exports` object to an exported function:
/// through its interface's namespace, or bare.
pub open spec fn export_target_text(d: FuncDesc) -> Seq<char> {
    match d.interface {
        Some(i) => sanitized(i@) + "."@,
        None => Seq::<char>::empty(),
    }
}

/// One export's property in the generated async-capable wrapper object:
/// it forwards to the user's function and, when the returned promise
/// settles, notifies the scheduler with the export's index and the
/// settled value.
pub open spec fn export_entry_text(index: nat, d: FuncDesc) -> Seq<char> {
    sanitized(d.name@) + ":function("@ + params_text(d.param_count as nat)
        + "){return Promise.resolve(exports."@ + export_target_text(d) + sanitized(d.name@) + "("@
        + params_text(d.param_count as nat) + ")).then(function(a){componentize_js_resolve("@
        + dec_digits(index) + ",a)},function(b){componentize_js_reject("@ + dec_digits(index)
        + ",b)})}"@
}

/// Append one export's wrapper property.
fn append_export_entry(out: &mut Vec<char>, index: u32, d: &FuncDesc)
    ensures
        final(out)@ == old(out)@ + export_entry_text(index as nat, *d),
{
    let name = sanitize_name(d.name.as_str());
    append_chars(out, &name);
    append_str(out, ":function(");
    append_params(out, d.param_count);
    append_str(out, "){return Promise.resolve(exports.");
    match &d.interface {
        Some(i) => {
            let iface = sanitize_name(i.as_str());
            append_chars(out, &iface);
            append_str(out, ".");
        },
        None => {},
    }
    append_chars(out, &name);
    append_str(out, "(");
    append_params(out, d.param_count);
    append_str(out, ")).then(function(a){componentize_js_resolve(");
    let ix = dec_u32(index);
    append_chars(out, &ix);
    append_str(out, ",a)},function(b){componentize_js_reject(");
    append_chars(out, &ix);
    append_str(out, ",b)})}");
    proof {
        assert(out@ =~= old(out)@ + export_entry_text(index as nat, *d));
    }
}

/// Whether one of the representatives in `reps` owns the interface key
/// `k`.
pub open spec fn reps_have_key(
    funcs: Seq<FuncDesc>,
    reps: Seq<int>,
    k: Option<Seq<char>>,
) -> bool {
    exists|j: int| 0 <= j < reps.len() && interface_key(funcs, reps[j]) == k
}

/// The position of the first descriptor of each distinct interface among
/// the first `n` descriptors, in order of first appearance.
pub open spec fn spec_reps(funcs: Seq<FuncDesc>, n: nat) -> Seq<int>
    decreases n,
{
    if n == 0 {
        Seq::empty()
    } else {
        let prev = spec_reps(funcs, (n - 1) as nat);
        if reps_have_key(funcs, prev, interface_key(funcs, n - 1)) {
            prev
        } else {
            prev.push(n - 1)
        }
    }
}

/// The positions among the first `n` descriptors whose interface key is
/// `k`, ascending.
pub open spec fn spec_members(funcs: Seq<FuncDesc>, k: Option<Seq<char>>, n: nat) -> Seq<int>
    decreases n,
{
    if n == 0 {
        Seq::empty()
    } else {
        let prev = spec_members(funcs, k, (n - 1) as nat);
        if interface_key(funcs, n - 1) == k {
            prev.push(n - 1)
        } else {
            prev
        }
    }
}

/// A member list as mathematical positions.
pub open spec fn as_ints(ms: Seq<usize>) -> Seq<int> {
    ms.map_values(|m: usize| m as int)
}

/// One namespace of the generated object: the first descriptor carrying
/// its interface, and every descriptor's position with that interface.
#[derive(Debug)]
pub struct Group {
    /// The position of the interface's first descriptor.
    pub rep: usize,
    /// The positions of all the interface's descriptors, ascending.
    pub members: Vec<usize>,
}

/// What [`group_funcs`] computes: one group per distinct interface in
/// first-appearance order, each holding exactly the positions with that
/// interface.
pub open spec fn grouped(funcs: Seq<FuncDesc>, groups: Seq<Group>) -> bool {
    &&& groups.len() == spec_reps(funcs, funcs.len()).len()
    &&& forall|g: int|
        0 <= g < groups.len() ==> groups[g].rep as int == spec_reps(funcs, funcs.len())[g]
    &&& forall|g: int|
        0 <= g < groups.len() ==> as_ints(groups[g].members@)
            == spec_members(funcs, interface_key(funcs, groups[g].rep as int), funcs.len())
}

/// Whether two descriptors belong to the same interface.
fn keys_equal(a: &FuncDesc, b: &FuncDesc) -> (r: bool)
    ensures
        r == (match (a.interface, b.interface) {
            (Some(x), Some(y)) => Some(x@) == Some(y@),
            (None, None) => true,
            _ => false,
        }),
{
    match (&a.interface, &b.interface) {
        (Some(x), Some(y)) => x.eq(y),
        (None, None) => true,
        _ => false,
    }
}

/// Group the descriptors by interface: one group per distinct interface
/// in order of first appearance, each holding exactly the positions with
/// that interface, ascending.
pub fn group_funcs(funcs: &Vec<FuncDesc>) -> (groups: Vec<Group>)
    ensures
        grouped(funcs@, groups@),
{
    let n = funcs.len();
    let mut reps: Vec<usize> = Vec::new();
    let mut i: usize = 0;
    while i < n
        invariant
            n == funcs@.len(),
            i <= n,
            forall|j: int| 0 <= j < reps@.len() ==> reps@[j] < i,
            as_ints(reps@) == spec_reps(funcs@, i as nat),
        decreases n - i,
    {
        let ghost prev = as_ints(reps@);
        let mut found = false;
        let mut j: usize = 0;
        while j < reps.len()
            invariant
                n == funcs@.len(),
                i < n,
                forall|q: int| 0 <= q < reps@.len() ==> reps@[q] < i,
                as_ints(reps@) == prev,
                j <= reps@.len(),
                !found ==> forall|q: int|
                    0 <= q < j ==> interface_key(funcs@, reps@[q] as int) != interface_key(
                        funcs@,
                        i as int,
                    ),
                found ==> reps_have_key(funcs@, prev, interface_key(funcs@, i as int)),
            decreases reps@.len() - j,
        {
            if keys_equal(&funcs[reps[j]], &funcs[i]) {
                proof {
                    assert(interface_key(funcs@, reps@[j as int] as int) == interface_key(
                        funcs@,
                        i as int,
                    ));
                    assert(prev[j as int] == reps@[j as int] as int);
                }
                found = true;
            }
            j = j + 1;
        }
        proof {
            if !found {
                assert forall|q: int|
                    0 <= q < prev.len() implies interface_key(funcs@, prev[q]) != interface_key(
                    funcs@,
                    i as int,
                ) by {
                    assert(prev[q] == reps@[q] as int);
                }
            }
        }
        if !found {
            reps.push(i);
            proof {
                assert(as_ints(reps@) =~= prev.push(i as int));
            }
        }
        i = i + 1;
    }
    let mut groups: Vec<Group> = Vec::new();
    let mut g: usize = 0;
    while g < reps.len()
        invariant
            n == funcs@.len(),
            forall|j: int| 0 <= j < reps@.len() ==> reps@[j] < n,
            as_ints(reps@) == spec_reps(funcs@, n as nat),
            g <= reps@.len(),
            groups@.len() == g,
            forall|q: int| 0 <= q < g ==> groups@[q].rep == reps@[q],
            forall|q: int|
                0 <= q < g ==> as_ints(groups@[q].members@)
                    == spec_members(
                    funcs@,
                    interface_key(funcs@, groups@[q].rep as int),
                    funcs@.len(),
                ),
        decreases reps@.len() - g,
    {
        let rep = reps[g];
        let mut members: Vec<usize> = Vec::new();
        let mut i2: usize = 0;
        while i2 < n
            invariant
                n == funcs@.len(),
                rep < n,
                i2 <= n,
                as_ints(members@) == spec_members(
                    funcs@,
                    interface_key(funcs@, rep as int),
                    i2 as nat,
                ),
            decreases n - i2,
        {
            let ghost prevm = as_ints(members@);
            if keys_equal(&funcs[rep], &funcs[i2]) {
                members.push(i2);
                proof {
                    assert(as_ints(members@) =~= prevm.push(i2 as int));
                }
            } else {
                proof {
                    assert(interface_key(funcs@, i2 as int) != interface_key(funcs@, rep as int));
                }
            }
            i2 = i2 + 1;
        }
        groups.push(Group { rep, members });
        g = g + 1;
    }
    groups
}

/// One namespace property, import or export flavor.
pub open spec fn entry_text(index: nat, d: FuncDesc, export: bool) -> Seq<char> {
    if export {
        export_entry_text(index, d)
    } else {
        import_entry_text(index, d)
    }
}

/// The first `n` members' properties, joined by commas.
pub open spec fn entries_text(
    funcs: Seq<FuncDesc>,
    members: Seq<int>,
    n: nat,
    export: bool,
) -> Seq<char>
    decreases n,
{
    if n == 0 {
        Seq::empty()
    } else {
        let prefix = entries_text(funcs, members, (n - 1) as nat, export);
        let e = entry_text(members[n - 1] as nat, funcs[members[n - 1]], export);
        if n == 1 {
            e
        } else {
            prefix + ","@ + e
        }
    }
}

/// One interface's contribution to the generated object: a namespace
/// object keyed by the translated interface name, or — for functions
/// with no owning interface — the bare properties themselves.
pub open spec fn group_text(funcs: Seq<FuncDesc>, rep: int, export: bool) -> Seq<char> {
    let members = spec_members(funcs, interface_key(funcs, rep), funcs.len());
    let entries = entries_text(funcs, members, members.len(), export);
    match interface_key(funcs, rep) {
        Some(k) => sanitized(k) + ":{"@ + entries + "}"@,
        None => entries,
    }
}

/// The first `n` groups' contributions, joined by commas.
pub open spec fn groups_text(
    funcs: Seq<FuncDesc>,
    reps: Seq<int>,
    n: nat,
    export: bool,
) -> Seq<char>
    decreases n,
{
    if n == 0 {
        Seq::empty()
    } else {
        let prefix = groups_text(funcs, reps, (n - 1) as nat, export);
        let gt = group_text(funcs, reps[n - 1], export);
        if n == 1 {
            gt
        } else {
            prefix + ","@ + gt
        }
    }
}

/// The whole generated object literal for one side of the boundary.
pub open spec fn object_text(funcs: Seq<FuncDesc>, export: bool) -> Seq<char> {
    let reps = spec_reps(funcs, funcs.len());
    "{"@ + groups_text(funcs, reps, reps.len(), export) + "}"@
}

/// Every representative is a position among the first `n` descriptors.
proof fn lemma_reps_bounds(funcs: Seq<FuncDesc>, n: nat)
    ensures
        forall|j: int|
            0 <= j < spec_reps(funcs, n).len() ==> 0 <= #[trigger] spec_reps(funcs, n)[j] < n,
    decreases n,
{
    if n > 0 {
        lemma_reps_bounds(funcs, (n - 1) as nat);
        let prev = spec_reps(funcs, (n - 1) as nat);
        let cur = spec_reps(funcs, n);
        assert forall|j: int| 0 <= j < cur.len() implies 0 <= #[trigger] cur[j] < n by {
            if j < prev.len() {
                assert(cur[j] == prev[j]);
            } else {
                assert(cur[j] == n - 1);
            }
        }
    }
}

/// Every member is a position among the first `n` descriptors, and the
/// members are ascending.
proof fn lemma_members_bounds(funcs: Seq<FuncDesc>, k: Option<Seq<char>>, n: nat)
    ensures
        forall|j: int|
            0 <= j < spec_members(funcs, k, n).len() ==> 0 <= #[trigger] spec_members(
                funcs,
                k,
                n,
            )[j] < n,
    decreases n,
{
    if n > 0 {
        lemma_members_bounds(funcs, k, (n - 1) as nat);
        let prev = spec_members(funcs, k, (n - 1) as nat);
        let cur = spec_members(funcs, k, n);
        assert forall|j: int| 0 <= j < cur.len() implies 0 <= #[trigger] cur[j] < n by {
            if j < prev.len() {
                assert(cur[j] == prev[j]);
            } else {
                assert(cur[j] == n - 1);
            }
        }
    }
}

/// Append the members' properties, joined by commas.
fn append_entries(out: &mut Vec<char>, funcs: &Vec<FuncDesc>, members: &Vec<usize>, export: bool)
    requires
        funcs@.len() <= u32::MAX,
        forall|j: int| 0 <= j < members@.len() ==> members@[j] < funcs@.len(),
    ensures
        final(out)@ == old(out)@ + entries_text(
            funcs@,
            as_ints(members@),
            members@.len(),
            export,
        ),
{
    let ghost ms = as_ints(members@);
    let mut j: usize = 0;
    while j < members.len()
        invariant
            funcs@.len() <= u32::MAX,
            forall|q: int| 0 <= q < members@.len() ==> members@[q] < funcs@.len(),
            ms == as_ints(members@),
            j <= members@.len(),
            out@ == old(out)@ + entries_text(funcs@, ms, j as nat, export),
        decreases members@.len() - j,
    {
        if j > 0 {
            append_str(out, ",");
        }
        let ix = members[j];
        if export {
            append_export_entry(out, ix as u32, &funcs[ix]);
        } else {
            append_import_entry(out, ix as u32, &funcs[ix]);
        }
        j = j + 1;
        proof {
            assert(ms[j - 1] == members@[j - 1] as int);
            assert(out@ =~= old(out)@ + entries_text(funcs@, ms, j as nat, export));
        }
    }
}

/// Append one interface's contribution to the object literal.
fn append_group(out: &mut Vec<char>, funcs: &Vec<FuncDesc>, group: &Group, export: bool)
    requires
        funcs@.len() <= u32::MAX,
        group.rep < funcs@.len(),
        as_ints(group.members@) == spec_members(
            funcs@,
            interface_key(funcs@, group.rep as int),
            funcs@.len(),
        ),
    ensures
        final(out)@ == old(out)@ + group_text(funcs@, group.rep as int, export),
{
    let rep = group.rep;
    proof {
        lemma_members_bounds(funcs@, interface_key(funcs@, rep as int), funcs@.len());
        assert forall|q: int|
            0 <= q < group.members@.len() implies group.members@[q] < funcs@.len() by {
            assert(as_ints(group.members@)[q] == group.members@[q] as int);
        }
    }
    match &funcs[rep].interface {
        Some(k) => {
            let key = sanitize_name(k.as_str());
            append_chars(out, &key);
            append_str(out, ":{");
            append_entries(out, funcs, &group.members, export);
            append_str(out, "}");
            proof {
                assert(interface_key(funcs@, rep as int) == Some(k@));
                assert(out@ =~= old(out)@ + group_text(funcs@, rep as int, export));
            }
        },
        None => {
            append_entries(out, funcs, &group.members, export);
            proof {
                assert(interface_key(funcs@, rep as int) is None);
                assert(out@ =~= old(out)@ + group_text(funcs@, rep as int, export));
            }
        },
    }
}

/// Append the whole object literal for one side of the boundary.
fn append_object(out: &mut Vec<char>, funcs: &Vec<FuncDesc>, export: bool)
    requires
        funcs@.len() <= u32::MAX,
    ensures
        final(out)@ == old(out)@ + object_text(funcs@, export),
{
    let groups = group_funcs(funcs);
    let ghost reps = spec_reps(funcs@, funcs@.len());
    proof {
        lemma_reps_bounds(funcs@, funcs@.len());
    }
    append_str(out, "{");
    let mut g: usize = 0;
    while g < groups.len()
        invariant
            funcs@.len() <= u32::MAX,
            grouped(funcs@, groups@),
            reps == spec_reps(funcs@, funcs@.len()),
            forall|j: int| 0 <= j < reps.len() ==> 0 <= #[trigger] reps[j] < funcs@.len(),
            g <= groups@.len(),
            out@ == old(out)@ + "{"@ + groups_text(funcs@, reps, g as nat, export),
        decreases groups@.len() - g,
    {
        if g > 0 {
            append_str(out, ",");
        }
        proof {
            assert(groups@[g as int].rep as int == reps[g as int]);
        }
        append_group(out, funcs, &groups[g], export);
        g = g + 1;
        proof {
            assert(out@ =~= old(out)@ + "{"@ + groups_text(funcs@, reps, g as nat, export));
        }
    }
    append_str(out, "}");
    proof {
        assert(out@ =~= old(out)@ + object_text(funcs@, export));
    }
}

/// The owning interface's name after translation, if any.
pub open spec fn sanitized_key(funcs: Seq<FuncDesc>, i: int) -> Option<Seq<char>> {
    match interface_key(funcs, i) {
        Some(k) => Some(sanitized(k)),
        None => None,
    }
}

/// What must hold of positions `i` and `j` for the generated object's
/// property names to stay distinct: two functions of one interface keep
/// distinct translated names, two distinct interfaces keep distinct
/// translated names, and a bare function's translated name never
/// coincides with a translated interface name beside it.
pub open spec fn pair_ok(funcs: Seq<FuncDesc>, i: int, j: int) -> bool {
    &&& (i < j && interface_key(funcs, i) == interface_key(funcs, j) ==> sanitized(funcs[i].name@)
        != sanitized(funcs[j].name@))
    &&& (interface_key(funcs, i) != interface_key(funcs, j) ==> sanitized_key(funcs, i)
        != sanitized_key(funcs, j))
    &&& (interface_key(funcs, i) is None && interface_key(funcs, j) is Some ==> Some(
        sanitized(funcs[i].name@),
    ) != sanitized_key(funcs, j))
}

/// No two identifiers of one side rewrite to the same script
/// identifier.
pub open spec fn collision_free(funcs: Seq<FuncDesc>) -> bool {
    forall|i: int, j: int|
        0 <= i < funcs.len() && 0 <= j < funcs.len() ==> #[trigger] pair_ok(funcs, i, j)
}

/// Whether two translated identifiers coincide.
fn chars_eq(a: &Vec<char>, b: &Vec<char>) -> (r: bool)
    ensures
        r == (a@ == b@),
{
    if a.len() != b.len() {
        return false;
    }
    let mut i: usize = 0;
    while i < a.len()
        invariant
            a@.len() == b@.len(),
            i <= a@.len(),
            forall|j: int| 0 <= j < i ==> a@[j] == b@[j],
        decreases a@.len() - i,
    {
        if a[i] != b[i] {
            return false;
        }
        i = i + 1;
    }
    proof {
        assert(a@ =~= b@);
    }
    true
}

/// Check one side's identifiers for translation collisions, which are a
/// configuration error in the world, surfaced here at generation time
/// and never at call time.
fn check_collisions(funcs: &Vec<FuncDesc>) -> (r: Result<(), ProtocolError>)
    ensures
        match r {
            Ok(()) => collision_free(funcs@),
            Err(e) => {
                &&& e == ProtocolError::NameCollision
                &&& !collision_free(funcs@)
            },
        },
{
    let n = funcs.len();
    let mut i: usize = 0;
    while i < n
        invariant
            n == funcs@.len(),
            i <= n,
            forall|p: int, q: int| 0 <= p < i && 0 <= q < n ==> #[trigger] pair_ok(funcs@, p, q),
        decreases n - i,
    {
        let mut j: usize = 0;
        while j < n
            invariant
                n == funcs@.len(),
                i < n,
                j <= n,
                forall|p: int, q: int|
                    0 <= p < i && 0 <= q < n ==> #[trigger] pair_ok(funcs@, p, q),
                forall|q: int| 0 <= q < j ==> #[trigger] pair_ok(funcs@, i as int, q),
            decreases n - j,
        {
            let same = keys_equal(&funcs[i], &funcs[j]);
            if i < j && same {
                let a = sanitize_name(funcs[i].name.as_str());
                let b = sanitize_name(funcs[j].name.as_str());
                if chars_eq(&a, &b) {
                    proof {
                        assert(!pair_ok(funcs@, i as int, j as int));
                    }
                    return Err(ProtocolError::NameCollision);
                }
            }
            if !same {
                match (&funcs[i].interface, &funcs[j].interface) {
                    (Some(x), Some(y)) => {
                        let a = sanitize_name(x.as_str());
                        let b = sanitize_name(y.as_str());
                        if chars_eq(&a, &b) {
                            proof {
                                assert(!pair_ok(funcs@, i as int, j as int));
                            }
                            return Err(ProtocolError::NameCollision);
                        }
                    },
                    _ => {},
                }
            }
            match (&funcs[i].interface, &funcs[j].interface) {
                (None, Some(y)) => {
                    let a = sanitize_name(funcs[i].name.as_str());
                    let b = sanitize_name(y.as_str());
                    if chars_eq(&a, &b) {
                        proof {
                            assert(!pair_ok(funcs@, i as int, j as int));
                        }
                        return Err(ProtocolError::NameCollision);
                    }
                },
                _ => {},
            }
            proof {
                assert(pair_ok(funcs@, i as int, j as int));
            }
            j = j + 1;
        }
        i = i + 1;
    }
    Ok(())
}

/// The script source appended to the user's program: the import proxy
/// object and the async-capable export wrapper object, each bound to the
/// global name the bridge looks up.
pub open spec fn shim_tail_text(imports: Seq<FuncDesc>, exports: Seq<FuncDesc>) -> Seq<char> {
    "\nvar imports = "@ + object_text(imports, false) + "\nvar componentize_js_async_exports = "@
        + object_text(exports, true)
}

/// Generate the shim source for a world: the proxy object routing every
/// import through the native dispatch entry point, and the wrapper
/// object notifying the scheduler when an export's promise settles.
/// Identifier-translation collisions are a configuration error, reported
/// instead of source.
pub fn shim_source(table: &DispatchTable) -> (r: Result<Vec<char>, ProtocolError>)
    requires
        table.imports().len() <= u32::MAX,
        table.exports().len() <= u32::MAX,
    ensures
        match r {
            Ok(v) => {
                &&& collision_free(table.imports())
                &&& collision_free(table.exports())
                &&& v@ == shim_tail_text(table.imports(), table.exports())
            },
            Err(e) => {
                &&& e == ProtocolError::NameCollision
                &&& !(collision_free(table.imports()) && collision_free(table.exports()))
            },
        },
{
    match check_collisions(table.import_descs()) {
        Ok(()) => {},
        Err(e) => {
            return Err(e);
        },
    }
    match check_collisions(table.export_descs()) {
        Ok(()) => {},
        Err(e) => {
            return Err(e);
        },
    }
    let mut out: Vec<char> = Vec::new();
    append_str(&mut out, "\nvar imports = ");
    append_object(&mut out, table.import_descs(), false);
    append_str(&mut out, "\nvar componentize_js_async_exports = ");
    append_object(&mut out, table.export_descs(), true);
    proof {
        assert(out@ =~= shim_tail_text(table.imports(), table.exports()));
    }
    Ok(out)
}

/// The user's program with the generated shim source appended: the text
/// the engine evaluates exactly once at initialization.
pub open spec fn init_script_text(
    script: Seq<char>,
    imports: Seq<FuncDesc>,
    exports: Seq<FuncDesc>,
) -> Seq<char> {
    script + shim_tail_text(imports, exports)
}

/// Build the full initialization script: the user's program followed by
/// the generated shim source.
pub fn init_script(script: &str, table: &DispatchTable) -> (r: Result<Vec<char>, ProtocolError>)
    requires
        table.imports().len() <= u32::MAX,
        table.exports().len() <= u32::MAX,
    ensures
        match r {
            Ok(v) => {
                &&& collision_free(table.imports())
                &&& collision_free(table.exports())
                &&& v@ == init_script_text(script@, table.imports(), table.exports())
            },
            Err(e) => {
                &&& e == ProtocolError::NameCollision
                &&& !(collision_free(table.imports()) && collision_free(table.exports()))
            },
        },
{
    let tail = match shim_source(table) {
        Ok(t) => t,
        Err(e) => {
            return Err(e);
        },
    };
    let mut out: Vec<char> = Vec::new();
    append_str(&mut out, script);
    append_chars(&mut out, &tail);
    proof {
        assert(out@ =~= init_script_text(script@, table.imports(), table.exports()));
    }
    Ok(out)
}

} // verus!
