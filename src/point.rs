use vstd::prelude::*;

verus! {

/// A stage of the packet-processing pipeline, used as a diagram label.
#[derive(Clone, Copy, Debug, PartialEq, Eq, Structural)]
pub enum Hook {
    In,
    Out,
    Forward,
    PreRouting,
    PostRouting,
}

/// A protocol family, used as a diagram label.
///
/// Only the families that the catalog can name are represented, so every
/// value of this type has a display name.
#[derive(Clone, Copy, Debug, PartialEq, Eq, Structural)]
pub enum ProtoFamily {
    Arp,
    Bridge,
    Inet,
    Ipv4,
    Ipv6,
    NetDev,
}

/// A directional movement request.
#[derive(Clone, Copy, Debug, PartialEq, Eq, Structural)]
pub enum Direction {
    Up,
    Down,
    Left,
    Right,
}

/// One selectable point of the diagram: a hook of a protocol family, placed
/// at column `x` and row `y`.
///
/// Every value of this type is an entry of the catalog.
#[derive(Clone, Copy, Debug, PartialEq, Eq, Structural)]
pub struct HookFamily {
    pub(crate) hook: Hook,
    pub(crate) family: ProtoFamily,
    pub(crate) x: u16,
    pub(crate) y: u16,
}

/// Number of entries of the catalog.
pub const CATALOG_LEN: usize = 12;

/// Score of a candidate that lies behind, or level with the current point but
/// off the axis of movement.
pub const SCORE_BLOCKED: u32 = 0xFFFF_FFFF;

/// Score of the current point itself: worse than any candidate ahead, better
/// than any blocked one.
pub const SCORE_STAY: u32 = 0xFFFF_FFFE;

/// The point with the given fields.
pub open(crate) spec fn hf(hook: Hook, family: ProtoFamily, x: u16, y: u16) -> HookFamily {
    HookFamily { hook, family, x, y }
}

/// Entry `i` of the catalog.
pub open(crate) spec fn catalog_entry(i: int) -> HookFamily {
    if i == 0 {
        hf(Hook::In, ProtoFamily::Inet, 9, 1)
    } else if i == 1 {
        hf(Hook::Out, ProtoFamily::Inet, 15, 1)
    } else if i == 2 {
        hf(Hook::PreRouting, ProtoFamily::Inet, 7, 3)
    } else if i == 3 {
        hf(Hook::Forward, ProtoFamily::Inet, 11, 3)
    } else if i == 4 {
        hf(Hook::PostRouting, ProtoFamily::Inet, 15, 3)
    } else if i == 5 {
        hf(Hook::In, ProtoFamily::Bridge, 9, 5)
    } else if i == 6 {
        hf(Hook::Out, ProtoFamily::Bridge, 15, 5)
    } else if i == 7 {
        hf(Hook::PreRouting, ProtoFamily::Bridge, 7, 7)
    } else if i == 8 {
        hf(Hook::Forward, ProtoFamily::Bridge, 11, 7)
    } else if i == 9 {
        hf(Hook::PostRouting, ProtoFamily::Bridge, 15, 7)
    } else if i == 10 {
        hf(Hook::In, ProtoFamily::Arp, 9, 9)
    } else {
        hf(Hook::Out, ProtoFamily::Arp, 15, 9)
    }
}

/// The catalog: the fixed, ordered sequence of all selectable points.
pub open(crate) spec fn catalog_spec() -> Seq<HookFamily> {
    Seq::new(CATALOG_LEN as nat, |i: int| catalog_entry(i))
}

pub open(crate) spec fn is_catalog_point(p: HookFamily) -> bool {
    exists|i: int| 0 <= i < CATALOG_LEN && catalog_entry(i) == p
}

/// The offset `(dx, dy)` seen along direction `d`: the component along the
/// direction (major) and the one across it (minor).
pub open(crate) spec fn major_minor(dx: int, dy: int, d: Direction) -> (int, int) {
    match d {
        Direction::Up => (-dy, dx),
        Direction::Down => (dy, dx),
        Direction::Left => (-dx, dy),
        Direction::Right => (dx, dy),
    }
}

pub open(crate) spec fn abs(v: int) -> int {
    if v < 0 {
        -v
    } else {
        v
    }
}

/// Score of a candidate at offset `(dx, dy)` from the current point when
/// moving along `d`; lower is better.
pub open(crate) spec fn offset_score(dx: int, dy: int, d: Direction) -> int {
    let (major, minor) = major_minor(dx, dy, d);
    if major < 0 || (major == 0 && minor != 0) {
        SCORE_BLOCKED as int
    } else if major == 0 {
        SCORE_STAY as int
    } else {
        major + 3 * abs(minor)
    }
}

/// Score of candidate `p` seen from the current point `s` when moving along `d`.
pub open(crate) spec fn point_score(s: HookFamily, p: HookFamily, d: Direction) -> int {
    offset_score(p.x - s.x, p.y - s.y, d)
}

pub open(crate) spec fn entry_score(s: HookFamily, d: Direction, i: int) -> int {
    point_score(s, catalog_entry(i), d)
}

/// Index of the first catalog entry of least score among the first `n`.
pub open(crate) spec fn first_min_index(s: HookFamily, d: Direction, n: nat) -> int
    decreases n,
{
    if n <= 1 {
        0
    } else {
        let k = first_min_index(s, d, (n - 1) as nat);
        if entry_score(s, d, n - 1) < entry_score(s, d, k) {
            n - 1
        } else {
            k
        }
    }
}

/// The point that a move from `s` along `d` selects.
pub open(crate) spec fn move_target(s: HookFamily, d: Direction) -> HookFamily {
    catalog_entry(first_min_index(s, d, CATALOG_LEN as nat))
}

/// Index `i` is the selection rule's choice: its score is least over the
/// catalog, and every earlier entry scores strictly more.
pub open(crate) spec fn is_first_minimum(s: HookFamily, d: Direction, i: int) -> bool {
    &&& 0 <= i < CATALOG_LEN
    &&& forall|j: int| 0 <= j < CATALOG_LEN ==> entry_score(s, d, i) <= #[trigger] entry_score(s, d, j)
    &&& forall|j: int| 0 <= j < i ==> entry_score(s, d, i) < #[trigger] entry_score(s, d, j)
}

impl Default for HookFamily {
    fn default() -> (r: HookFamily)
        ensures
            r == catalog_entry(0),
    {
        HookFamily::new()
    }
}

impl HookFamily {
    #[verifier::type_invariant]
    pub(crate) open(crate) spec fn inv(self) -> bool {
        is_catalog_point(self)
    }

    pub open(crate) spec fn spec_hook(self) -> Hook {
        self.hook
    }

    pub open(crate) spec fn spec_family(self) -> ProtoFamily {
        self.family
    }

    pub open(crate) spec fn spec_x(self) -> int {
        self.x as int
    }

    pub open(crate) spec fn spec_y(self) -> int {
        self.y as int
    }

    /// Entry `i` of the catalog.
    pub fn catalog_entry(i: usize) -> (r: HookFamily)
        requires
            i < CATALOG_LEN,
        ensures
            r == catalog_entry(i as int),
    {
        if i == 0 {
            HookFamily { hook: Hook::In, family: ProtoFamily::Inet, x: 9, y: 1 }
        } else if i == 1 {
            HookFamily { hook: Hook::Out, family: ProtoFamily::Inet, x: 15, y: 1 }
        } else if i == 2 {
            HookFamily { hook: Hook::PreRouting, family: ProtoFamily::Inet, x: 7, y: 3 }
        } else if i == 3 {
            HookFamily { hook: Hook::Forward, family: ProtoFamily::Inet, x: 11, y: 3 }
        } else if i == 4 {
            HookFamily { hook: Hook::PostRouting, family: ProtoFamily::Inet, x: 15, y: 3 }
        } else if i == 5 {
            HookFamily { hook: Hook::In, family: ProtoFamily::Bridge, x: 9, y: 5 }
        } else if i == 6 {
            HookFamily { hook: Hook::Out, family: ProtoFamily::Bridge, x: 15, y: 5 }
        } else if i == 7 {
            HookFamily { hook: Hook::PreRouting, family: ProtoFamily::Bridge, x: 7, y: 7 }
        } else if i == 8 {
            HookFamily { hook: Hook::Forward, family: ProtoFamily::Bridge, x: 11, y: 7 }
        } else if i == 9 {
            HookFamily { hook: Hook::PostRouting, family: ProtoFamily::Bridge, x: 15, y: 7 }
        } else if i == 10 {
            HookFamily { hook: Hook::In, family: ProtoFamily::Arp, x: 9, y: 9 }
        } else {
            HookFamily { hook: Hook::Out, family: ProtoFamily::Arp, x: 15, y: 9 }
        }
    }

    /// All the catalog's points, in catalog order.
    pub fn catalog() -> (r: Vec<HookFamily>)
        ensures
            r@ == catalog_spec(),
    {
        let mut v: Vec<HookFamily> = Vec::new();
        let mut i: usize = 0;
        while i < CATALOG_LEN
            invariant
                i <= CATALOG_LEN,
                v@ == catalog_spec().subrange(0, i as int),
            decreases CATALOG_LEN - i,
        {
            v.push(HookFamily::catalog_entry(i));
            i = i + 1;
            assert(v@ =~= catalog_spec().subrange(0, i as int));
        }
        assert(v@ =~= catalog_spec());
        v
    }

    /// The initial selection: the first catalog entry.
    pub fn new() -> (r: HookFamily)
        ensures
            r == catalog_entry(0),
    {
        HookFamily::catalog_entry(0)
    }

    pub fn hook(&self) -> (r: Hook)
        ensures
            r == self.spec_hook(),
    {
        self.hook
    }

    pub fn family(&self) -> (r: ProtoFamily)
        ensures
            r == self.spec_family(),
    {
        self.family
    }

    /// Column and row of the point.
    pub fn to_xy(&self) -> (r: (u16, u16))
        ensures
            r.0 == self.spec_x(),
            r.1 == self.spec_y(),
            is_catalog_point(*self),
    {
        proof {
            use_type_invariant(self);
        }
        (self.x, self.y)
    }

    /// Score of a candidate at offset `(dx, dy)` when moving along `direction`.
    fn move_score(offset: (i32, i32), direction: Direction) -> (r: u32)
        requires
            -0xFFFF <= offset.0 <= 0xFFFF,
            -0xFFFF <= offset.1 <= 0xFFFF,
        ensures
            r == offset_score(offset.0 as int, offset.1 as int, direction),
    {
        let (dx, dy) = offset;
        let (major, minor): (i32, i32) = match direction {
            Direction::Up => (-dy, dx),
            Direction::Down => (dy, dx),
            Direction::Left => (-dx, dy),
            Direction::Right => (dx, dy),
        };
        if major < 0 || (major == 0 && minor != 0) {
            SCORE_BLOCKED
        } else if major == 0 {
            SCORE_STAY
        } else {
            let drift: i32 = if minor < 0 {
                -minor
            } else {
                minor
            };
            (major + 3 * drift) as u32
        }
    }

    /// Moves the selection along `direction`: the catalog entry of least score
    /// is chosen, the earliest one among equals. With no entry ahead, the
    /// current point is kept.
    #[must_use]
    pub fn move_by_direction(self, direction: Direction) -> (r: HookFamily)
        ensures
            r == move_target(self, direction),
    {
        let (sx, sy) = self.to_xy();
        let first = HookFamily::catalog_entry(0);
        let mut best: usize = 0;
        let mut best_score: u32 = HookFamily::move_score(
            (first.x as i32 - sx as i32, first.y as i32 - sy as i32),
            direction,
        );
        let mut i: usize = 1;
        while i < CATALOG_LEN
            invariant
                1 <= i <= CATALOG_LEN,
                sx == self.spec_x(),
                sy == self.spec_y(),
                best == first_min_index(self, direction, i as nat),
                best < CATALOG_LEN,
                best_score == entry_score(self, direction, best as int),
            decreases CATALOG_LEN - i,
        {
            let p = HookFamily::catalog_entry(i);
            let score = HookFamily::move_score(
                (p.x as i32 - sx as i32, p.y as i32 - sy as i32),
                direction,
            );
            if score < best_score {
                best = i;
                best_score = score;
            }
            i = i + 1;
        }
        HookFamily::catalog_entry(best)
    }
}

} // verus!
