//! The menu table builder: a declarative menu tree becomes a native menu
//! description plus a flat table, indexed by tag, of the commands that its
//! interactive items stand for.
use vstd::prelude::*;

verus! {

/// Modifier bit of the command key in a native key-equivalent mask.
pub const COMMAND_KEY_MASK: u64 = 0x100000;

/// Modifier bit of the control key.
pub const CONTROL_KEY_MASK: u64 = 0x40000;

/// Modifier bit of the alternate (option) key.
pub const ALTERNATE_KEY_MASK: u64 = 0x80000;

/// A parsed keystroke: modifiers and the bare key.
pub struct Keystroke {
    pub ctrl: bool,
    pub alt: bool,
    pub shift: bool,
    pub cmd: bool,
    pub key: String,
}

/// One entry of a menu: a separator, or an action that stands for a command
/// with an optional argument.
pub enum MenuItem<A> {
    Separator,
    Action { name: String, keystroke: Option<Keystroke>, action: String, arg: Option<A> },
}

/// A named menu and its items, in display order.
pub struct Menu<A> {
    pub name: String,
    pub items: Vec<MenuItem<A>>,
}

/// A native menu item: a separator, or an interactive item whose tag indexes
/// the action table.
pub enum NativeMenuItem {
    Separator,
    Action { title: String, key_equivalent: String, modifier_mask: u64, tag: usize },
}

/// A native menu: a title and its items.
pub struct NativeMenu {
    pub title: String,
    pub items: Vec<NativeMenuItem>,
}

/// The native modifier mask of a keystroke: command, control and alternate,
/// each present or absent.
pub open spec fn modifier_mask(k: Keystroke) -> u64 {
    (if k.cmd {
        COMMAND_KEY_MASK
    } else {
        0u64
    }) | (if k.ctrl {
        CONTROL_KEY_MASK
    } else {
        0u64
    }) | (if k.alt {
        ALTERNATE_KEY_MASK
    } else {
        0u64
    })
}

pub fn keystroke_modifier_mask(k: &Keystroke) -> (r: u64)
    ensures
        r == modifier_mask(*k),
{
    let cmd: u64 = if k.cmd {
        COMMAND_KEY_MASK
    } else {
        0
    };
    let ctrl: u64 = if k.ctrl {
        CONTROL_KEY_MASK
    } else {
        0
    };
    let alt: u64 = if k.alt {
        ALTERNATE_KEY_MASK
    } else {
        0
    };
    cmd | ctrl | alt
}

/// The action-table entries of a run of items: one per action, in order;
/// separators give none.
pub open spec fn entries<A>(items: Seq<MenuItem<A>>) -> Seq<(String, Option<A>)>
    decreases items.len(),
{
    if items.len() == 0 {
        Seq::empty()
    } else {
        let rest = entries(items.drop_last());
        match items.last() {
            MenuItem::Separator => rest,
            MenuItem::Action { action, arg, .. } => rest.push((action, arg)),
        }
    }
}

/// All items of a menu tree, menu by menu, in declaration order.
pub open spec fn flatten<A>(menus: Seq<Menu<A>>) -> Seq<MenuItem<A>>
    decreases menus.len(),
{
    if menus.len() == 0 {
        Seq::empty()
    } else {
        flatten(menus.drop_last()) + menus.last().items@
    }
}

/// The action table that a menu tree yields.
pub open spec fn menu_entries<A>(menus: Seq<Menu<A>>) -> Seq<(String, Option<A>)> {
    entries(flatten(menus))
}

/// The tag of item `i` of menu `m`: the number of actions declared before it.
pub open spec fn tag_at<A>(menus: Seq<Menu<A>>, m: int, i: int) -> nat {
    entries(flatten(menus.take(m))).len() + entries(menus[m].items@.take(i)).len()
}

/// The native form of an item, given the tag that it is assigned.
pub open spec fn native_item_matches<A>(n: NativeMenuItem, item: MenuItem<A>, tag: nat) -> bool {
    match item {
        MenuItem::Separator => n is Separator,
        MenuItem::Action { name, keystroke, .. } => match n {
            NativeMenuItem::Separator => false,
            NativeMenuItem::Action { title, key_equivalent, modifier_mask: mask, tag: t } => {
                &&& title@ == name@
                &&& t == tag
                &&& match keystroke {
                    Some(k) => key_equivalent@ == k.key@ && mask == modifier_mask(k),
                    None => key_equivalent@ == Seq::<char>::empty() && mask == 0,
                }
            },
        },
    }
}

/// Native menu `m` of a bar built from `menus`.
pub open spec fn native_menu_matches<A>(n: NativeMenu, menus: Seq<Menu<A>>, m: int) -> bool {
    &&& n.title@ == menus[m].name@
    &&& n.items@.len() == menus[m].items@.len()
    &&& forall|i: int|
        0 <= i < n.items@.len() ==> native_item_matches(
            #[trigger] n.items@[i],
            menus[m].items@[i],
            tag_at(menus, m, i),
        )
}

pub proof fn lemma_entries_concat<A>(a: Seq<MenuItem<A>>, b: Seq<MenuItem<A>>)
    ensures
        entries(a + b) == entries(a) + entries(b),
    decreases b.len(),
{
    if b.len() == 0 {
        assert(a + b =~= a);
        assert(entries(a) + entries(b) =~= entries(a));
    } else {
        assert((a + b).drop_last() =~= a + b.drop_last());
        lemma_entries_concat(a, b.drop_last());
        match b.last() {
            MenuItem::Separator => {},
            MenuItem::Action { action, arg, .. } => {
                assert(entries(a) + entries(b.drop_last()).push((action, arg)) =~= (entries(a)
                    + entries(b.drop_last())).push((action, arg)));
            },
        }
    }
}

/// Rebuilds `table` from `menus` and describes the native menu bar: each
/// interactive item gets as tag the index of its entry in the new table.
pub fn build_menu_table<A>(table: &mut Vec<(String, Option<A>)>, menus: Vec<Menu<A>>) -> (r: Vec<
    NativeMenu,
>)
    ensures
        final(table)@ == menu_entries(menus@),
        r@.len() == menus@.len(),
        forall|m: int| 0 <= m < r@.len() ==> native_menu_matches(#[trigger] r@[m], menus@, m),
{
    table.clear();
    let ghost orig = menus@;
    let mut rest = menus;
    let mut bar: Vec<NativeMenu> = Vec::new();
    let ghost mut m: int = 0;
    assert(orig.take(0) =~= Seq::<Menu<A>>::empty());
    assert(table@ =~= entries(flatten(orig.take(0))));
    while rest.len() > 0
        invariant
            0 <= m <= orig.len(),
            rest@ == orig.skip(m),
            table@ == entries(flatten(orig.take(m))),
            bar@.len() == m,
            forall|j: int| 0 <= j < m ==> native_menu_matches(#[trigger] bar@[j], orig, j),
        decreases rest@.len(),
    {
        let menu = rest.remove(0);
        assert(menu == orig[m]);
        let ghost before = table@;
        let Menu { name, items } = menu;
        let ghost orig_items = items@;
        let mut items = items;
        let mut native_items: Vec<NativeMenuItem> = Vec::new();
        let ghost mut i: int = 0;
        assert(orig_items.take(0) =~= Seq::<MenuItem<A>>::empty());
        assert(before + entries(orig_items.take(0)) =~= before);
        while items.len() > 0
            invariant
                0 <= i <= orig_items.len(),
                items@ == orig_items.skip(i),
                table@ == before + entries(orig_items.take(i)),
                native_items@.len() == i,
                forall|k: int|
                    0 <= k < i ==> native_item_matches(
                        #[trigger] native_items@[k],
                        orig_items[k],
                        before.len() + entries(orig_items.take(k)).len(),
                    ),
            decreases items@.len(),
        {
            let item = items.remove(0);
            assert(item == orig_items[i]);
            assert(orig_items.take(i + 1).drop_last() =~= orig_items.take(i));
            proof {
                assert(orig_items.skip(i).remove(0) =~= orig_items.skip(i + 1));
            }
            match item {
                MenuItem::Separator => {
                    native_items.push(NativeMenuItem::Separator);
                },
                MenuItem::Action { name, keystroke, action, arg } => {
                    let tag = table.len();
                    let native = match keystroke {
                        Some(k) => {
                            let mask = keystroke_modifier_mask(&k);
                            NativeMenuItem::Action {
                                title: name,
                                key_equivalent: k.key,
                                modifier_mask: mask,
                                tag,
                            }
                        },
                        None => NativeMenuItem::Action {
                            title: name,
                            key_equivalent: String::new(),
                            modifier_mask: 0,
                            tag,
                        },
                    };
                    native_items.push(native);
                    table.push((action, arg));
                    assert(table@ =~= before + entries(orig_items.take(i + 1)));
                },
            }
            proof {
                i = i + 1;
            }
        }
        assert(orig_items.take(i) =~= orig_items);
        assert(orig.take(m + 1).drop_last() =~= orig.take(m));
        proof {
            lemma_entries_concat(flatten(orig.take(m)), orig[m].items@);
        }
        bar.push(NativeMenu { title: name, items: native_items });
        proof {
            assert(orig.skip(m).remove(0) =~= orig.skip(m + 1));
            assert forall|j: int| 0 <= j < m + 1 implies native_menu_matches(#[trigger] bar@[j], orig, j) by {
                if j == m {
                    assert(orig.take(j) == orig.take(m));
                }
            }
            m = m + 1;
        }
    }
    assert(orig.take(m) =~= orig);
    bar
}

/// The table entry of an action item.
pub open spec fn entry_of<A>(item: MenuItem<A>) -> (String, Option<A>)
    recommends
        item is Action,
{
    match item {
        MenuItem::Action { action, arg, .. } => (action, arg),
        MenuItem::Separator => arbitrary(),
    }
}

pub proof fn lemma_flatten_concat<A>(a: Seq<Menu<A>>, b: Seq<Menu<A>>)
    ensures
        flatten(a + b) == flatten(a) + flatten(b),
    decreases b.len(),
{
    if b.len() == 0 {
        assert(a + b =~= a);
        assert(flatten(a) + flatten(b) =~= flatten(a));
    } else {
        assert((a + b).drop_last() =~= a + b.drop_last());
        lemma_flatten_concat(a, b.drop_last());
        assert(flatten(a) + (flatten(b.drop_last()) + b.last().items@) =~= (flatten(a) + flatten(
            b.drop_last())) + b.last().items@);
    }
}

proof fn lemma_entries_split<A>(s: Seq<MenuItem<A>>, p: int)
    requires
        0 <= p < s.len(),
        s[p] is Action,
    ensures
        entries(s.take(p + 1)) == entries(s.take(p)).push(entry_of(s[p])),
        entries(s) == entries(s.take(p + 1)) + entries(s.skip(p + 1)),
{
    assert(s.take(p + 1).drop_last() =~= s.take(p));
    assert(s.take(p + 1) + s.skip(p + 1) =~= s);
    lemma_entries_concat(s.take(p + 1), s.skip(p + 1));
}

proof fn lemma_flat_index<A>(s: Seq<MenuItem<A>>, p: int)
    requires
        0 <= p < s.len(),
        s[p] is Action,
    ensures
        entries(s.take(p)).len() < entries(s).len(),
        entries(s)[entries(s.take(p)).len() as int] == entry_of(s[p]),
{
    lemma_entries_split(s, p);
}

proof fn lemma_flat_mono<A>(s: Seq<MenuItem<A>>, p: int, q: int)
    requires
        0 <= p <= q <= s.len(),
    ensures
        entries(s.take(p)).len() <= entries(s.take(q)).len(),
        p < q && s[p] is Action ==> entries(s.take(p)).len() < entries(s.take(q)).len(),
{
    assert(s.take(p) + s.subrange(p, q) =~= s.take(q));
    lemma_entries_concat(s.take(p), s.subrange(p, q));
    if p < q && s[p] is Action {
        let t = s.subrange(p, q);
        assert(t.take(1).drop_last() =~= Seq::<MenuItem<A>>::empty());
        assert(t.take(1) + t.skip(1) =~= t);
        lemma_entries_concat(t.take(1), t.skip(1));
    }
}

proof fn lemma_flat_onto<A>(s: Seq<MenuItem<A>>, k: int)
    requires
        0 <= k < entries(s).len(),
    ensures
        exists|p: int|
            0 <= p < s.len() && s[p] is Action && #[trigger] entries(s.take(p)).len() == k,
    decreases s.len(),
{
    let d = s.drop_last();
    assert(s.take(s.len() - 1) =~= d);
    if k < entries(d).len() {
        lemma_flat_onto(d, k);
        let p = choose|p: int|
            0 <= p < d.len() && d[p] is Action && #[trigger] entries(d.take(p)).len() == k;
        assert(s.take(p) =~= d.take(p));
    } else {
        assert(s.last() is Action);
        assert(entries(s.take(s.len() - 1)).len() == k);
    }
}

proof fn lemma_prefix_step<A>(menus: Seq<Menu<A>>, m: int)
    requires
        0 <= m < menus.len(),
    ensures
        entries(flatten(menus.take(m + 1))) == entries(flatten(menus.take(m))) + entries(
            menus[m].items@,
        ),
{
    assert(menus.take(m + 1).drop_last() =~= menus.take(m));
    lemma_entries_concat(flatten(menus.take(m)), menus[m].items@);
}

proof fn lemma_prefix_mono<A>(menus: Seq<Menu<A>>, a: int, b: int)
    requires
        0 <= a <= b <= menus.len(),
    ensures
        entries(flatten(menus.take(a))).len() <= entries(flatten(menus.take(b))).len(),
    decreases b - a,
{
    if a < b {
        lemma_prefix_step(menus, a);
        lemma_prefix_mono(menus, a + 1, b);
    }
}

proof fn lemma_tag_in_table<A>(menus: Seq<Menu<A>>, m: int, i: int)
    requires
        0 <= m < menus.len(),
        0 <= i < menus[m].items@.len(),
        menus[m].items@[i] is Action,
    ensures
        tag_at(menus, m, i) < entries(flatten(menus.take(m + 1))).len(),
        tag_at(menus, m, i) < menu_entries(menus).len(),
        menu_entries(menus)[tag_at(menus, m, i) as int] == entry_of(menus[m].items@[i]),
{
    let items = menus[m].items@;
    lemma_flat_index(items, i);
    lemma_prefix_step(menus, m);
    assert(menus.take(m + 1) + menus.skip(m + 1) =~= menus);
    lemma_flatten_concat(menus.take(m + 1), menus.skip(m + 1));
    lemma_entries_concat(flatten(menus.take(m + 1)), flatten(menus.skip(m + 1)));
}

proof fn lemma_tag_onto<A>(menus: Seq<Menu<A>>, k: int)
    requires
        0 <= k < menu_entries(menus).len(),
    ensures
        exists|m: int, i: int|
            0 <= m < menus.len() && 0 <= i < menus[m].items@.len() && menus[m].items@[i] is Action
                && #[trigger] tag_at(menus, m, i) == k,
    decreases menus.len(),
{
    let d = menus.drop_last();
    let last = menus.len() - 1;
    assert(menus.take(last) =~= d);
    assert(menus.take(last + 1) =~= menus);
    lemma_prefix_step(menus, last);
    if k < menu_entries(d).len() {
        lemma_tag_onto(d, k);
        let (m, i) = choose|m: int, i: int|
            0 <= m < d.len() && 0 <= i < d[m].items@.len() && d[m].items@[i] is Action
                && #[trigger] tag_at(d, m, i) == k;
        assert(menus.take(m) =~= d.take(m));
        assert(tag_at(menus, m, i) == k);
    } else {
        let base = menu_entries(d).len() as int;
        lemma_flat_onto(menus[last].items@, k - base);
        let i = choose|i: int|
            0 <= i < menus[last].items@.len() && menus[last].items@[i] is Action
                && #[trigger] entries(menus[last].items@.take(i)).len() == k - base;
        assert(tag_at(menus, last, i) == k);
    }
}

/// Whether `k` is the tag of some interactive item of the tree.
pub open spec fn is_assigned_tag<A>(menus: Seq<Menu<A>>, k: int) -> bool {
    exists|m: int, i: int|
        0 <= m < menus.len() && 0 <= i < menus[m].items@.len() && menus[m].items@[i] is Action
            && #[trigger] tag_at(menus, m, i) == k
}

/// Tags are dense and follow declaration order: each interactive item's tag
/// indexes its own entry of the table, an item declared later (left to right,
/// top to bottom) has a larger tag, every index of the table is some item's
/// tag, and a separator takes no index.
pub proof fn lemma_tag_density<A>(menus: Seq<Menu<A>>)
    ensures
        forall|m: int, i: int|
            0 <= m < menus.len() && 0 <= i < menus[m].items@.len()
                && menus[m].items@[i] is Action ==> {
                &&& tag_at(menus, m, i) < menu_entries(menus).len()
                &&& menu_entries(menus)[#[trigger] tag_at(menus, m, i) as int] == entry_of(
                    menus[m].items@[i],
                )
            },
        forall|m1: int, i1: int, m2: int, i2: int|
            0 <= m1 < menus.len() && 0 <= i1 < menus[m1].items@.len() && 0 <= m2 < menus.len()
                && 0 <= i2 < menus[m2].items@.len() && menus[m1].items@[i1] is Action
                && menus[m2].items@[i2] is Action && (m1 < m2 || (m1 == m2 && i1 < i2)) ==> #[trigger] tag_at(
                menus,
                m1,
                i1,
            ) < #[trigger] tag_at(menus, m2, i2),
        forall|k: int| 0 <= k < menu_entries(menus).len() ==> #[trigger] is_assigned_tag(menus, k),
        forall|m: int, i: int|
            0 <= m < menus.len() && 0 <= i < menus[m].items@.len()
                && menus[m].items@[i] is Separator ==> #[trigger] tag_at(menus, m, i + 1)
                == tag_at(menus, m, i),
{
    assert forall|m: int, i: int|
        0 <= m < menus.len() && 0 <= i < menus[m].items@.len()
            && menus[m].items@[i] is Action implies {
        &&& tag_at(menus, m, i) < menu_entries(menus).len()
        &&& menu_entries(menus)[#[trigger] tag_at(menus, m, i) as int] == entry_of(
            menus[m].items@[i],
        )
    } by {
        lemma_tag_in_table(menus, m, i);
    }
    assert forall|m1: int, i1: int, m2: int, i2: int|
        0 <= m1 < menus.len() && 0 <= i1 < menus[m1].items@.len() && 0 <= m2 < menus.len() && 0
            <= i2 < menus[m2].items@.len() && menus[m1].items@[i1] is Action
            && menus[m2].items@[i2] is Action && (m1 < m2 || (m1 == m2 && i1 < i2)) implies #[trigger] tag_at(
        menus,
        m1,
        i1,
    ) < #[trigger] tag_at(menus, m2, i2) by {
        if m1 == m2 {
            lemma_flat_mono(menus[m1].items@, i1, i2);
        } else {
            lemma_tag_in_table(menus, m1, i1);
            lemma_prefix_mono(menus, m1 + 1, m2);
        }
    }
    assert forall|k: int| 0 <= k < menu_entries(menus).len() implies #[trigger] is_assigned_tag(
        menus,
        k,
    ) by {
        lemma_tag_onto(menus, k);
    }
    assert forall|m: int, i: int|
        0 <= m < menus.len() && 0 <= i < menus[m].items@.len()
            && menus[m].items@[i] is Separator implies #[trigger] tag_at(menus, m, i + 1) == tag_at(
        menus,
        m,
        i,
    ) by {
        assert(menus[m].items@.take(i + 1).drop_last() =~= menus[m].items@.take(i));
    }
}

} // verus!
