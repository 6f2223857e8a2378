//! Integer rules for window placement on monitor rectangles. Scale factors
//! are checked by the caller; only the integer rectangle arithmetic is here.
use crate::text::str_eq;
use vstd::prelude::*;

verus! {

/// Place one axis of a window of length `window` on a monitor axis: the
/// requested offset (or centering) clamped so the window stays inside.
pub open spec fn axis_spec(origin: int, extent: int, window: int, offset: Option<int>) -> Option<
    int,
> {
    let free = if extent >= window {
        extent - window
    } else {
        0
    };
    let wanted = match offset {
        Some(o) => o,
        None => free / 2,
    };
    let relative = if wanted < 0 {
        0
    } else if wanted > free {
        free
    } else {
        wanted
    };
    if i32::MIN <= origin + relative <= i32::MAX {
        Some(origin + relative)
    } else {
        None
    }
}

pub fn axis(origin: i32, extent: u32, window: u32, offset: Option<i64>) -> (r: Option<i32>)
    ensures
        r == match axis_spec(
            origin as int,
            extent as int,
            window as int,
            match offset {
                Some(o) => Some(o as int),
                None => None,
            },
        ) {
            Some(v) => Some(v as i32),
            None => None::<i32>,
        },
{
    let free: i64 = if extent >= window {
        (extent - window) as i64
    } else {
        0
    };
    let wanted: i64 = match offset {
        Some(o) => o,
        None => free / 2,
    };
    let relative: i64 = if wanted < 0 {
        0
    } else if wanted > free {
        free
    } else {
        wanted
    };
    let v: i64 = origin as i64 + relative;
    if i32::MIN as i64 <= v && v <= i32::MAX as i64 {
        Some(v as i32)
    } else {
        None
    }
}

/// A saved offset that already fits is kept as it is; one below zero starts
/// the window at the origin, one past the free room puts it against the far
/// edge, and no offset centres it. Whatever is placed lies within the free room.
pub proof fn lemma_axis_placement(origin: int, extent: int, window: int, offset: Option<int>)
    requires
        0 <= extent,
        0 <= window,
    ensures
        forall|o: int|
            #![trigger axis_spec(origin, extent, window, Some(o))]
            0 <= o && o + window <= extent && i32::MIN <= origin + o <= i32::MAX ==> axis_spec(
                origin,
                extent,
                window,
                Some(o),
            ) == Some(origin + o),
        forall|o: int|
            #![trigger axis_spec(origin, extent, window, Some(o))]
            o < 0 && i32::MIN <= origin <= i32::MAX ==> axis_spec(origin, extent, window, Some(o))
                == Some(origin),
        forall|o: int|
            #![trigger axis_spec(origin, extent, window, Some(o))]
            window <= extent && o > extent - window && i32::MIN <= origin + extent - window
                <= i32::MAX ==> axis_spec(origin, extent, window, Some(o)) == Some(
                origin + extent - window,
            ),
        forall|o: int|
            #![trigger axis_spec(origin, extent, window, Some(o))]
            extent < window && i32::MIN <= origin <= i32::MAX ==> axis_spec(
                origin,
                extent,
                window,
                Some(o),
            ) == Some(origin),
        window <= extent && i32::MIN <= origin + (extent - window) / 2 <= i32::MAX ==> axis_spec(
            origin,
            extent,
            window,
            None,
        ) == Some(origin + (extent - window) / 2),
        extent < window && i32::MIN <= origin <= i32::MAX ==> axis_spec(
            origin,
            extent,
            window,
            None,
        ) == Some(origin),
        axis_spec(origin, extent, window, offset) matches Some(v) ==> origin <= v && (v == origin
            || v + window <= origin + extent),
{
}

/// A monitor rectangle in physical pixels.
#[derive(Clone, Copy, Debug, PartialEq, Eq)]
pub struct Area {
    pub origin: (i32, i32),
    pub size: (u32, u32),
}

pub open spec fn area_valid(a: Area) -> bool {
    &&& a.size.0 > 0
    &&& a.size.1 > 0
    &&& a.origin.0 + a.size.0 <= i32::MAX
    &&& a.origin.1 + a.size.1 <= i32::MAX
}

pub fn valid_area(a: &Area) -> (r: bool)
    ensures
        r == area_valid(*a),
{
    a.size.0 > 0 && a.size.1 > 0 && (a.origin.0 as i64) + (a.size.0 as i64) <= i32::MAX as i64
        && (a.origin.1 as i64) + (a.size.1 as i64) <= i32::MAX as i64
}

/// The whole window rectangle lies inside the area (an oversized axis must
/// start at the area's origin).
pub open spec fn fits(position: (i32, i32), size: (u32, u32), a: Area) -> bool {
    let x = position.0 - a.origin.0;
    let y = position.1 - a.origin.1;
    let free_x = if a.size.0 >= size.0 {
        a.size.0 - size.0
    } else {
        0
    };
    let free_y = if a.size.1 >= size.1 {
        a.size.1 - size.1
    } else {
        0
    };
    0 <= x <= free_x && 0 <= y <= free_y
}

pub fn reachable(position: (i32, i32), size: (u32, u32), areas: &Vec<Area>) -> (r: bool)
    ensures
        r == exists|i: int|
            0 <= i < areas@.len() && area_valid(#[trigger] areas@[i]) && fits(
                position,
                size,
                areas@[i],
            ),
{
    let mut i: usize = 0;
    while i < areas.len()
        invariant
            i <= areas.len(),
            forall|j: int|
                0 <= j < i ==> !(area_valid(#[trigger] areas@[j]) && fits(position, size, areas@[j])),
        decreases areas.len() - i,
    {
        let a = areas[i];
        if valid_area(&a) {
            let x = position.0 as i64 - a.origin.0 as i64;
            let y = position.1 as i64 - a.origin.1 as i64;
            let free_x: i64 = if a.size.0 >= size.0 {
                (a.size.0 - size.0) as i64
            } else {
                0
            };
            let free_y: i64 = if a.size.1 >= size.1 {
                (a.size.1 - size.1) as i64
            } else {
                0
            };
            if 0 <= x && x <= free_x && 0 <= y && y <= free_y {
                assert(area_valid(areas@[i as int]) && fits(position, size, areas@[i as int]));
                return true;
            }
        }
        i += 1;
    }
    false
}

/// What monitor selection reads of a monitor: its name, whether it is the
/// primary display, and whether its rectangle and scale are usable.
pub struct MonitorKey {
    pub name: Option<String>,
    pub primary: bool,
    pub usable: bool,
}

pub open spec fn named(m: MonitorKey, name: Seq<char>) -> bool {
    m.name matches Some(n) && n@ == name
}

/// Exactly one usable monitor carries the saved name.
pub open spec fn unique_name(ms: Seq<MonitorKey>, name: Option<Seq<char>>) -> bool {
    name matches Some(n) && (exists|i: int|
        0 <= i < ms.len() && ms[i].usable && #[trigger] named(ms[i], n)) && (forall|i: int, j: int|
        0 <= i < ms.len() && 0 <= j < ms.len() && ms[i].usable && ms[j].usable && #[trigger] named(
            ms[i],
            n,
        ) && #[trigger] named(ms[j], n) ==> i == j)
}

pub open spec fn usable_primary(m: MonitorKey) -> bool {
    m.usable && m.primary
}

/// The saved monitor when its name identifies exactly one usable monitor;
/// otherwise the first usable primary monitor; otherwise the first usable one.
pub open spec fn selected(ms: Seq<MonitorKey>, name: Option<Seq<char>>, i: int) -> bool {
    &&& 0 <= i < ms.len()
    &&& ms[i].usable
    &&& if unique_name(ms, name) {
        named(ms[i], name->0)
    } else if exists|j: int| 0 <= j < ms.len() && #[trigger] usable_primary(ms[j]) {
        ms[i].primary && forall|j: int| 0 <= j < i ==> !#[trigger] usable_primary(ms[j])
    } else {
        forall|j: int| 0 <= j < i ==> !(#[trigger] ms[j]).usable
    }
}

fn same_name(a: &Option<String>, b: &str) -> (r: bool)
    ensures
        r == (a matches Some(n) && n@ == b@),
{
    match a {
        Some(n) => str_eq(n.as_str(), b),
        None => false,
    }
}

/// Choose the monitor that a saved placement named `name` is restored on.
pub open spec fn name_view(name: Option<&str>) -> Option<Seq<char>> {
    match name {
        Some(n) => Some(n@),
        None => None,
    }
}

pub fn select_monitor(name: Option<&str>, monitors: &Vec<MonitorKey>) -> (r: Option<usize>)
    ensures
        match r {
            Some(i) => selected(monitors@, name_view(name), i as int),
            None => forall|j: int| 0 <= j < monitors@.len() ==> !(#[trigger] monitors@[j]).usable,
        },
{
    let ghost ms = monitors@;
    let ghost wanted = name_view(name);
    let mut matched: Option<usize> = None;
    let mut ambiguous = false;
    let mut primary: Option<usize> = None;
    let mut first: Option<usize> = None;
    let mut i: usize = 0;
    while i < monitors.len()
        invariant
            i <= ms.len(),
            ms == monitors@,
            wanted == name_view(name),
            match first {
                Some(f) => f < i && ms[f as int].usable && forall|j: int|
                    0 <= j < f ==> !(#[trigger] ms[j]).usable,
                None => forall|j: int| 0 <= j < i ==> !(#[trigger] ms[j]).usable,
            },
            match primary {
                Some(p) => p < i && usable_primary(ms[p as int]) && forall|j: int|
                    0 <= j < p ==> !#[trigger] usable_primary(ms[j]),
                None => forall|j: int| 0 <= j < i ==> !#[trigger] usable_primary(ms[j]),
            },
            name is None ==> matched is None && !ambiguous,
            name matches Some(n) ==> match matched {
                Some(m) => m < i && ms[m as int].usable && named(ms[m as int], n@) && (!ambiguous
                    ==> forall|j: int|
                    0 <= j < i && ms[j].usable && #[trigger] named(ms[j], n@) ==> j == m) && (
                ambiguous ==> exists|j: int|
                    0 <= j < i && j != m && ms[j].usable && #[trigger] named(ms[j], n@)),
                None => !ambiguous && forall|j: int|
                    0 <= j < i ==> !(ms[j].usable && #[trigger] named(ms[j], n@)),
            },
        decreases monitors.len() - i,
    {
        let m = &monitors[i];
        if m.usable {
            if first.is_none() {
                first = Some(i);
            }
            if primary.is_none() && m.primary {
                primary = Some(i);
            }
            match name {
                Some(n) => {
                    if same_name(&m.name, n) {
                        assert(named(ms[i as int], n@));
                        if matched.is_none() {
                            matched = Some(i);
                        } else {
                            ambiguous = true;
                        }
                    } else {
                        assert(!named(ms[i as int], n@));
                    }
                },
                None => {},
            }
        }
        i += 1;
    }
    if !ambiguous {
        if let Some(m) = matched {
            proof {
                let n = wanted->0;
                assert(named(ms[m as int], n));
            }
            return Some(m);
        }
    }
    proof {
        if let Some(n) = wanted {
            if ambiguous {
                let m = matched->0;
                let j = choose|j: int| 0 <= j < ms.len() && j != m && ms[j].usable && #[trigger] named(ms[j], n);
                assert(named(ms[m as int], n) && named(ms[j], n));
            }
        }
        assert(!unique_name(ms, wanted));
    }
    match primary {
        Some(p) => {
            assert(usable_primary(ms[p as int]));
            Some(p)
        },
        None => first,
    }
}

/// Two monitors with the same name: that name identifies no single monitor.
proof fn lemma_not_unique(ms: Seq<MonitorKey>, c: Seq<char>, f: int, i: int)
    requires
        0 <= f < i < ms.len(),
        named(ms[f], c),
        named(ms[i], c),
    ensures
        !exists|k: int|
            0 <= k < ms.len() && #[trigger] named(ms[k], c) && forall|j: int|
                0 <= j < ms.len() && #[trigger] named(ms[j], c) ==> j == k,
{
    assert forall|k: int| 0 <= k < ms.len() && #[trigger] named(ms[k], c) implies !(forall|j: int|
        0 <= j < ms.len() && #[trigger] named(ms[j], c) ==> j == k) by {
        if k == f {
            assert(named(ms[i], c) && i != k);
        } else {
            assert(named(ms[f], c) && f != k);
        }
    }
}

/// After a display-scale change, the saved placement is kept only when the
/// window is still on the display with that name and the name is unique.
pub fn keep_after_scale(previous: Option<&str>, current: Option<&str>, monitors: &Vec<MonitorKey>) -> (r:
    bool)
    ensures
        r == (current matches Some(c) && previous matches Some(p) && p@ == c@ && exists|i: int|
            0 <= i < monitors@.len() && #[trigger] named(monitors@[i], c@) && forall|j: int|
                0 <= j < monitors@.len() && #[trigger] named(monitors@[j], c@) ==> j == i),
{
    let c = match current {
        Some(c) => c,
        None => {
            return false;
        },
    };
    let same = match previous {
        Some(p) => str_eq(p, c),
        None => false,
    };
    if !same {
        return false;
    }
    let mut found: Option<usize> = None;
    let mut i: usize = 0;
    while i < monitors.len()
        invariant
            i <= monitors@.len(),
            current == Some(c),
            match found {
                Some(f) => f < i && named(monitors@[f as int], c@) && forall|j: int|
                    0 <= j < i && #[trigger] named(monitors@[j], c@) ==> j == f,
                None => forall|j: int| 0 <= j < i ==> !#[trigger] named(monitors@[j], c@),
            },
        decreases monitors.len() - i,
    {
        if same_name(&monitors[i].name, c) {
            if found.is_some() {
                proof {
                    let f: usize = found->0;
                    lemma_not_unique(monitors@, c@, f as int, i as int);
                }
                return false;
            }
            found = Some(i);
        }
        i += 1;
    }
    match found {
        Some(f) => {
            assert(named(monitors@[f as int], c@));
            true
        },
        None => false,
    }
}

} // verus!
