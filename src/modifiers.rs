use vstd::prelude::*;
use vstd::string::*;
use vstd::utf8::*;

verus! {

/// Modifier slots shown per palette.
pub const MAX_MODIFIER_PALETTES: usize = 9;

/// One loaded text transform.
pub struct ModifierSlot {
    pub name: String,
    pub description: String,
    pub enabled: bool,
}

/// Positions of the enabled slots, ascending.
pub open spec fn enabled_positions(slots: Seq<ModifierSlot>) -> Seq<usize>
    decreases slots.len(),
{
    if slots.len() == 0 {
        Seq::empty()
    } else {
        let prev = enabled_positions(slots.drop_last());
        if slots.last().enabled {
            prev.push((slots.len() - 1) as usize)
        } else {
            prev
        }
    }
}

/// `slots` with the enabled flag of the slot at `index` flipped.
pub open spec fn toggled(slots: Seq<ModifierSlot>, index: int) -> Seq<ModifierSlot> {
    let s = slots[index];
    slots.update(index, ModifierSlot { name: s.name, description: s.description, enabled: !s.enabled })
}

/// What a line becomes when the transforms produced `produced`: the decoded
/// text if it is valid UTF-8, otherwise the untouched original.
pub open spec fn rolled_back(original: Seq<char>, produced: Seq<u8>) -> Seq<char> {
    if valid_utf8(produced) {
        decode_utf8(produced)
    } else {
        original
    }
}

/// `steps` records a run of `call` through the slots of `order`: each step is
/// what the slot at that position returned for the step before it.
pub open spec fn chained<F: Fn(usize, Vec<u8>) -> Vec<u8>>(
    call: F,
    order: Seq<usize>,
    steps: Seq<Vec<u8>>,
) -> bool {
    &&& steps.len() == order.len() + 1
    &&& forall|j: int|
        0 <= j < order.len() ==> #[trigger] call.ensures((order[j], steps[j]), steps[j + 1])
}

/// Index of the last palette for `n` slots (palettes are numbered from 0).
pub open spec fn last_palette(n: nat) -> nat {
    if n == 0 {
        0
    } else {
        ((n - 1) as nat / MAX_MODIFIER_PALETTES as nat) as nat
    }
}

/// The palette selected after one shift from `current` with `n` slots loaded.
/// Shifting wraps at both ends; with no slots the palette stays at 0, and a
/// palette left beyond the last one (after a reload) re-enters the range.
pub open spec fn shifted_palette(current: nat, n: nat, backward: bool) -> nat {
    if n == 0 {
        0
    } else if backward {
        if current == 0 || current > last_palette(n) {
            last_palette(n)
        } else {
            (current - 1) as nat
        }
    } else if current >= last_palette(n) {
        0
    } else {
        current + 1
    }
}

/// Running the slots of `first + second` is running those of `first`, then
/// those of `second` on its result: the steps of the whole run split at the
/// boundary into runs of the two parts, and two such runs join into one.
pub proof fn lemma_chain_composes<F: Fn(usize, Vec<u8>) -> Vec<u8>>(
    call: F,
    first: Seq<usize>,
    second: Seq<usize>,
    steps: Seq<Vec<u8>>,
)
    ensures
        chained(call, first + second, steps) <==> {
            &&& steps.len() == first.len() + second.len() + 1
            &&& chained(call, first, steps.subrange(0, first.len() as int + 1))
            &&& chained(call, second, steps.subrange(first.len() as int, steps.len() as int))
        },
{
    let whole = first + second;
    let a = steps.subrange(0, first.len() as int + 1);
    let k = first.len() as int;
    if chained(call, whole, steps) {
        assert forall|j: int| 0 <= j < first.len() implies #[trigger] call.ensures(
            (first[j], a[j]),
            a[j + 1],
        ) by {
            assert(whole[j] == first[j]);
            assert(call.ensures((whole[j], steps[j]), steps[j + 1]));
        }
        let b = steps.subrange(k, steps.len() as int);
        assert forall|j: int| 0 <= j < second.len() implies #[trigger] call.ensures(
            (second[j], b[j]),
            b[j + 1],
        ) by {
            assert(whole[k + j] == second[j]);
            assert(call.ensures((whole[k + j], steps[k + j]), steps[k + j + 1]));
        }
    }
    if steps.len() == first.len() + second.len() + 1 && chained(call, first, a) && chained(
        call,
        second,
        steps.subrange(k, steps.len() as int),
    ) {
        let b = steps.subrange(k, steps.len() as int);
        assert forall|j: int| 0 <= j < whole.len() implies #[trigger] call.ensures(
            (whole[j], steps[j]),
            steps[j + 1],
        ) by {
            if j < k {
                assert(call.ensures((first[j], a[j]), a[j + 1]));
            } else {
                assert(call.ensures((second[j - k], b[j - k]), b[j - k + 1]));
            }
        }
    }
}

/// The bytes `b` after the slots of `order` have run in turn, when each slot
/// is the function `f` of its position and its input.
pub open spec fn run_all(f: spec_fn(usize, Seq<u8>) -> Seq<u8>, order: Seq<usize>, b: Seq<u8>) -> Seq<u8>
    decreases order.len(),
{
    if order.len() == 0 {
        b
    } else {
        f(order.last(), run_all(f, order.drop_last(), b))
    }
}

/// Where every slot's output is a function `f` of its position and input,
/// a recorded run ends in `run_all` of the order over the first input.
pub proof fn lemma_chain_is_run_all<F: Fn(usize, Vec<u8>) -> Vec<u8>>(
    call: F,
    f: spec_fn(usize, Seq<u8>) -> Seq<u8>,
    order: Seq<usize>,
    steps: Seq<Vec<u8>>,
)
    requires
        chained(call, order, steps),
        forall|i: usize, v: Vec<u8>, w: Vec<u8>| #[trigger] call.ensures((i, v), w) ==> w@ == f(i, v@),
    ensures
        steps.last()@ == run_all(f, order, steps[0]@),
    decreases order.len(),
{
    if order.len() > 0 {
        let k = order.len() - 1;
        let shorter = steps.drop_last();
        assert forall|j: int| 0 <= j < order.drop_last().len() implies #[trigger] call.ensures(
            (order.drop_last()[j], shorter[j]),
            shorter[j + 1],
        ) by {
            assert(call.ensures((order[j], steps[j]), steps[j + 1]));
        }
        lemma_chain_is_run_all(call, f, order.drop_last(), shorter);
        assert(call.ensures((order[k], steps[k]), steps[k + 1]));
    }
}

/// Running the slots of `first + second` equals running `first`, then
/// `second` on the result.
pub proof fn lemma_run_all_composes(
    f: spec_fn(usize, Seq<u8>) -> Seq<u8>,
    first: Seq<usize>,
    second: Seq<usize>,
    b: Seq<u8>,
)
    ensures
        run_all(f, first + second, b) == run_all(f, second, run_all(f, first, b)),
    decreases second.len(),
{
    if second.len() == 0 {
        assert(first + second =~= first);
    } else {
        assert((first + second).drop_last() =~= first + second.drop_last());
        lemma_run_all_composes(f, first, second.drop_last(), b);
    }
}

/// Every position listed for `slots` is the position of an enabled slot.
pub proof fn lemma_enabled_positions_bounded(slots: Seq<ModifierSlot>)
    requires
        slots.len() <= usize::MAX,
    ensures
        forall|j: int|
            0 <= j < enabled_positions(slots).len() ==> {
                let p = #[trigger] enabled_positions(slots)[j];
                &&& p < slots.len()
                &&& slots[p as int].enabled
            },
    decreases slots.len(),
{
    if slots.len() > 0 {
        let init = slots.drop_last();
        let prev = enabled_positions(init);
        lemma_enabled_positions_bounded(init);
        assert forall|j: int| 0 <= j < enabled_positions(slots).len() implies {
            let p = #[trigger] enabled_positions(slots)[j];
            &&& p < slots.len()
            &&& slots[p as int].enabled
        } by {
            if j < prev.len() {
                assert(enabled_positions(slots)[j] == prev[j]);
                assert(slots[prev[j] as int] == init[prev[j] as int]);
            }
        }
    }
}

/// Disabling a slot takes exactly that slot out of the run order, whatever
/// the state of the other slots: the next `apply` runs the same positions as
/// before, less that one.
pub proof fn lemma_disable_removes_slot(slots: Seq<ModifierSlot>, index: int)
    requires
        slots.len() <= usize::MAX,
        0 <= index < slots.len(),
        slots[index].enabled,
    ensures
        enabled_positions(toggled(slots, index)) == enabled_positions(slots).filter(
            |p: usize| p != index,
        ),
        !enabled_positions(toggled(slots, index)).contains(index as usize),
    decreases slots.len(),
{
    let keep = |p: usize| p != index;
    let t = toggled(slots, index);
    let last = slots.len() - 1;
    let prev = enabled_positions(slots.drop_last());
    lemma_enabled_positions_bounded(slots.drop_last());
    if index == last {
        assert(t.drop_last() =~= slots.drop_last());
        assert forall|j: int| 0 <= j < prev.len() implies #[trigger] prev[j] != index by {}
        lemma_filter_keeps_all(prev, index);
        prev.lemma_filter_push(last as usize, keep);
    } else {
        assert(t.drop_last() =~= toggled(slots.drop_last(), index));
        lemma_disable_removes_slot(slots.drop_last(), index);
        assert(t.last() == slots.last());
        prev.lemma_filter_push(last as usize, keep);
    }
    lemma_enabled_positions_bounded(t);
    if enabled_positions(t).contains(index as usize) {
        let j = choose|j: int|
            0 <= j < enabled_positions(t).len() && enabled_positions(t)[j] == index as usize;
        assert(t[index].enabled == false);
    }
}

proof fn lemma_filter_keeps_all(s: Seq<usize>, index: int)
    requires
        forall|j: int| 0 <= j < s.len() ==> #[trigger] s[j] != index,
    ensures
        s.filter(|p: usize| p != index) == s,
    decreases s.len(),
{
    if s.len() > 0 {
        let keep = |p: usize| p != index;
        assert forall|j: int| 0 <= j < s.drop_last().len() implies #[trigger] s.drop_last()[j]
            != index by {
            assert(s.drop_last()[j] == s[j]);
        }
        lemma_filter_keeps_all(s.drop_last(), index);
        s.drop_last().lemma_filter_push(s.last(), keep);
        assert(s.drop_last().push(s.last()) =~= s);
    } else {
        reveal(Seq::filter);
        assert(s.filter(|p: usize| p != index) =~= s);
    }
}

/// Palette shifts wrap: forward from the last palette comes back to 0,
/// backward from 0 goes to the last one, and with no slots loaded the
/// palette stays 0. The last palette is the slot count rounded up to whole
/// palettes, less one.
pub proof fn lemma_palette_wraps(n: nat, current: nat, backward: bool)
    ensures
        n > 0 ==> shifted_palette(last_palette(n), n, false) == 0,
        n > 0 ==> shifted_palette(0, n, true) == last_palette(n),
        n > 0 ==> last_palette(n) + 1 == (n + MAX_MODIFIER_PALETTES - 1) / (MAX_MODIFIER_PALETTES as int),
        n == 0 ==> shifted_palette(current, n, backward) == 0,
        n > 0 ==> shifted_palette(current, n, backward) <= last_palette(n),
{
}

/// The non-empty entries of a configured modifier list, in order.
pub open spec fn usable_names(list: Seq<String>) -> Seq<String> {
    list.filter(|n: String| n@.len() > 0)
}

/// The names of `slots`, in order.
pub open spec fn slot_names(slots: Seq<ModifierSlot>) -> Seq<Seq<char>> {
    slots.map_values(|s: ModifierSlot| s.name@)
}

/// Relies on `String::from_utf8`: it succeeds exactly on valid UTF-8 and then
/// holds the text those bytes encode.
#[verifier::external_body]
fn decode_line(bytes: Vec<u8>) -> (r: Option<String>)
    ensures
        r.is_some() == valid_utf8(bytes@),
        r matches Some(s) ==> s@ == decode_utf8(bytes@),
{
    String::from_utf8(bytes).ok()
}

/// Keeps the transformed bytes when they are text, else the original line.
pub fn finish_line(original: String, produced: Vec<u8>) -> (r: String)
    ensures
        r@ == rolled_back(original@, produced@),
{
    match decode_line(produced) {
        Some(s) => s,
        None => original,
    }
}

/// The next palette after a palette-shift chord, for `slot_count` loaded slots.
pub fn shift_palette(current: usize, slot_count: usize, backward: bool) -> (r: usize)
    ensures
        r == shifted_palette(current as nat, slot_count as nat, backward),
{
    if slot_count == 0 {
        return 0;
    }
    let last = (slot_count - 1) / MAX_MODIFIER_PALETTES;
    if backward {
        if current == 0 || current > last {
            last
        } else {
            current - 1
        }
    } else if current >= last {
        0
    } else {
        current + 1
    }
}

/// The slot position that digit `digit` (1 to 9) selects on palette `palette_no`.
pub fn palette_slot(palette_no: usize, digit: usize) -> (r: Option<usize>)
    requires
        1 <= digit <= MAX_MODIFIER_PALETTES,
    ensures
        palette_no * MAX_MODIFIER_PALETTES + digit - 1 <= usize::MAX ==> r == Some(
            (palette_no * MAX_MODIFIER_PALETTES + digit - 1) as usize,
        ),
        palette_no * MAX_MODIFIER_PALETTES + digit - 1 > usize::MAX ==> r.is_none(),
{
    match palette_no.checked_mul(MAX_MODIFIER_PALETTES) {
        Some(base) => base.checked_add(digit - 1),
        None => None,
    }
}

/// The ordered, individually switchable text transforms applied to every
/// pasted line.
pub struct ModifierPipeline {
    slots: Vec<ModifierSlot>,
}

impl ModifierPipeline {
    pub closed spec fn slots(&self) -> Seq<ModifierSlot> {
        self.slots@
    }

    pub fn new() -> (r: Self)
        ensures
            r.slots().len() == 0,
    {
        ModifierPipeline { slots: Vec::new() }
    }

    /// Appends a loaded transform, enabled, after the existing ones.
    pub fn push_slot(&mut self, name: String, description: String)
        ensures
            final(self).slots() == old(self).slots().push(
                ModifierSlot { name, description, enabled: true },
            ),
    {
        self.slots.push(ModifierSlot { name, description, enabled: true });
    }

    /// Unloads every slot.
    pub fn clear(&mut self)
        ensures
            final(self).slots().len() == 0,
    {
        self.slots.clear();
    }

    /// What a configured modifier list asks to load: `None` when it names
    /// nothing usable or exactly the slots already loaded (whose enabled
    /// states are then kept); otherwise its non-empty names, to be loaded
    /// in place of the current slots.
    pub fn plan_reload(&self, list: &Vec<String>) -> (r: Option<Vec<String>>)
        ensures
            ({
                let names = usable_names(list@);
                let same = names.map_values(|n: String| n@) == slot_names(self.slots());
                &&& (names.len() == 0 || same) ==> r.is_none()
                &&& !(names.len() == 0 || same) ==> (r matches Some(v) && v@ == names)
            }),
    {
        let mut names: Vec<String> = Vec::new();
        let mut i: usize = 0;
        while i < list.len()
            invariant
                i <= list@.len(),
                names@ == usable_names(list@.subrange(0, i as int)),
            decreases list@.len() - i,
        {
            proof {
                reveal(Seq::filter);
                assert(list@.subrange(0, i + 1).drop_last() =~= list@.subrange(0, i as int));
            }
            if list[i].as_str().unicode_len() > 0 {
                names.push(list[i].clone());
            }
            i = i + 1;
        }
        assert(list@.subrange(0, i as int) =~= list@);
        if names.len() == 0 {
            return None;
        }
        let mut same = names.len() == self.slots.len();
        let mut k: usize = 0;
        while same && k < names.len()
            invariant
                k <= names@.len(),
                same ==> names@.len() == self.slots@.len(),
                same ==> forall|j: int| 0 <= j < k ==> names@[j]@ == #[trigger] self.slots@[j].name@,
                !same ==> names@.len() != self.slots@.len() || exists|j: int|
                    0 <= j < k && j < self.slots@.len() && names@[j]@ != #[trigger] self.slots@[j].name@,
            decreases names@.len() - k,
        {
            if !(names[k] == self.slots[k].name) {
                same = false;
            }
            k = k + 1;
        }
        let ghost lhs = names@.map_values(|n: String| n@);
        let ghost rhs = slot_names(self.slots());
        if same {
            assert(lhs =~= rhs);
            None
        } else {
            assert(lhs != rhs) by {
                if names@.len() == self.slots@.len() {
                    let j = choose|j: int|
                        0 <= j < k && j < self.slots@.len() && names@[j]@ != #[trigger] self.slots@[j].name@;
                    assert(lhs[j] != rhs[j]);
                } else {
                    assert(lhs.len() != rhs.len());
                }
            }
            Some(names)
        }
    }

    pub fn slot_count(&self) -> (r: usize)
        ensures
            r == self.slots().len(),
    {
        self.slots.len()
    }

    /// Whether the slot at `index` is enabled; `None` where there is no slot.
    pub fn is_enabled(&self, index: usize) -> (r: Option<bool>)
        ensures
            index < self.slots().len() ==> r == Some(self.slots()[index as int].enabled),
            index >= self.slots().len() ==> r.is_none(),
    {
        if index < self.slots.len() {
            Some(self.slots[index].enabled)
        } else {
            None
        }
    }

    /// Flips the slot at `index` and returns its new state; `None`, with
    /// nothing changed, where there is no slot.
    pub fn toggle(&mut self, index: usize) -> (r: Option<bool>)
        ensures
            index < old(self).slots().len() ==> {
                &&& r == Some(!old(self).slots()[index as int].enabled)
                &&& final(self).slots() == toggled(old(self).slots(), index as int)
            },
            index >= old(self).slots().len() ==> r.is_none() && final(self).slots() == old(
                self,
            ).slots(),
            r == Some(false) ==> {
                &&& enabled_positions(final(self).slots()) == enabled_positions(
                    old(self).slots(),
                ).filter(|p: usize| p != index as int)
                &&& !enabled_positions(final(self).slots()).contains(index)
            },
    {
        if index >= self.slots.len() {
            return None;
        }
        proof {
            if self.slots@[index as int].enabled {
                lemma_disable_removes_slot(self.slots@, index as int);
            }
        }
        let enabled = !self.slots[index].enabled;
        let name = self.slots[index].name.clone();
        let description = self.slots[index].description.clone();
        self.slots.set(index, ModifierSlot { name, description, enabled });
        Some(enabled)
    }

    /// Positions of the enabled slots, in the order `apply` runs them.
    pub fn enabled_order(&self) -> (r: Vec<usize>)
        ensures
            r@ == enabled_positions(self.slots()),
    {
        let mut r: Vec<usize> = Vec::new();
        let mut i: usize = 0;
        while i < self.slots.len()
            invariant
                i <= self.slots@.len(),
                r@ == enabled_positions(self.slots@.subrange(0, i as int)),
            decreases self.slots@.len() - i,
        {
            assert(self.slots@.subrange(0, i + 1).drop_last() =~= self.slots@.subrange(0, i as int));
            if self.slots[i].enabled {
                r.push(i);
            }
            i = i + 1;
        }
        assert(self.slots@.subrange(0, i as int) =~= self.slots@);
        r
    }

    /// The slots of palette `palette_no`, cut off at the last loaded slot.
    pub fn active_palette_view(&self, palette_no: usize) -> (r: Vec<ModifierSlot>)
        ensures
            ({
                let n = self.slots().len();
                let lo = palette_no * MAX_MODIFIER_PALETTES;
                let lo = if lo < n { lo } else { n as int };
                let hi = palette_no * MAX_MODIFIER_PALETTES + MAX_MODIFIER_PALETTES;
                let hi = if hi < n { hi } else { n as int };
                r@ == self.slots().subrange(lo, hi)
            }),
    {
        let n = self.slots.len();
        let lo: usize = match palette_no.checked_mul(MAX_MODIFIER_PALETTES) {
            Some(v) => if v < n { v } else { n },
            None => n,
        };
        let hi: usize = if lo < n && n - lo > MAX_MODIFIER_PALETTES {
            lo + MAX_MODIFIER_PALETTES
        } else {
            n
        };
        let mut r: Vec<ModifierSlot> = Vec::new();
        let mut i: usize = lo;
        while i < hi
            invariant
                lo <= i <= hi <= n,
                n == self.slots@.len(),
                r@ == self.slots@.subrange(lo as int, i as int),
            decreases hi - i,
        {
            let s = &self.slots[i];
            r.push(ModifierSlot { name: s.name.clone(), description: s.description.clone(), enabled: s.enabled });
            assert(r@ =~= self.slots@.subrange(lo as int, i + 1));
            i = i + 1;
        }
        r
    }

    /// Runs `line` through every enabled slot in ascending position order,
    /// each slot's output feeding the next (`run_slot(position, bytes)` does
    /// one slot's work). Output that is not valid UTF-8 is dropped in favour
    /// of the untouched line.
    pub fn apply<F: Fn(usize, Vec<u8>) -> Vec<u8>>(&self, line: &String, run_slot: F) -> (r: String)
        requires
            forall|i: usize, b: Vec<u8>| run_slot.requires((i, b)),
        ensures
            exists|steps: Seq<Vec<u8>>|
                {
                    &&& chained(run_slot, enabled_positions(self.slots()), steps)
                    &&& steps[0]@ == encode_utf8(line@)
                    &&& r@ == rolled_back(line@, steps.last()@)
                },
            enabled_positions(self.slots()).len() == 0 ==> r@ == line@,
    {
        let order = self.enabled_order();
        let mut cur: Vec<u8> = line.as_str().as_bytes_vec();
        let ghost mut steps: Seq<Vec<u8>> = seq![cur];
        let mut k: usize = 0;
        while k < order.len()
            invariant
                k <= order@.len(),
                order@ == enabled_positions(self.slots()),
                forall|i: usize, b: Vec<u8>| run_slot.requires((i, b)),
                steps.len() == k + 1,
                steps[0]@ == encode_utf8(line@),
                steps.last() == cur,
                forall|j: int|
                    0 <= j < k ==> #[trigger] run_slot.ensures((order@[j], steps[j]), steps[j + 1]),
            decreases order@.len() - k,
        {
            let ghost before = steps;
            let next = run_slot(order[k], cur);
            proof {
                steps = steps.push(next);
                assert forall|j: int| 0 <= j < k + 1 implies #[trigger] run_slot.ensures(
                    (order@[j], steps[j]),
                    steps[j + 1],
                ) by {
                    if j < k {
                        assert(steps[j] == before[j] && steps[j + 1] == before[j + 1]);
                    }
                }
            }
            cur = next;
            k = k + 1;
        }
        proof {
            if order@.len() == 0 {
                encode_utf8_valid_utf8(line@);
                encode_utf8_decode_utf8(line@);
            }
        }
        let r = finish_line(line.clone(), cur);
        assert(chained(run_slot, enabled_positions(self.slots()), steps));
        r
    }
}

} // verus!
