use vstd::prelude::*;

verus! {

/// A point in time as its calendar fields.
#[derive(Clone, Copy, Debug, PartialEq, Eq, Structural)]
pub struct Tm {
    pub year: i32,
    pub month: u8,
    pub day: u8,
    pub hour: u8,
    pub minute: u8,
    pub second: u8,
}

impl Tm {
    /// The all-zero time.
    pub open spec fn zero() -> Tm {
        Tm { year: 0, month: 0, day: 0, hour: 0, minute: 0, second: 0 }
    }

    pub fn new() -> (r: Tm)
        ensures
            r == Tm::zero(),
    {
        Tm { year: 0, month: 0, day: 0, hour: 0, minute: 0, second: 0 }
    }
}

/// A group of the database tree. Groups and entries live in flat vectors owned
/// by the database; `parent`, `children` and `entries` are indices into them.
pub struct V1Group {
    pub id: u32,
    pub title: String,
    pub image: u32,
    pub level: u16,
    pub creation: Tm,
    pub last_mod: Tm,
    pub last_access: Tm,
    pub expire: Tm,
    pub flags: u32,
    pub parent: Option<usize>,
    pub children: Vec<usize>,
    pub entries: Vec<usize>,
}

impl V1Group {
    pub fn new() -> (r: V1Group)
        ensures
            r.id == 0 && r.image == 0 && r.level == 0 && r.flags == 0,
            r.title@.len() == 0,
            r.creation == Tm::zero() && r.last_mod == Tm::zero(),
            r.last_access == Tm::zero() && r.expire == Tm::zero(),
            r.parent is None,
            r.children@.len() == 0 && r.entries@.len() == 0,
    {
        V1Group {
            id: 0,
            title: String::new(),
            image: 0,
            level: 0,
            creation: Tm::new(),
            last_mod: Tm::new(),
            last_access: Tm::new(),
            expire: Tm::new(),
            flags: 0,
            parent: None,
            children: Vec::new(),
            entries: Vec::new(),
        }
    }
}

} // verus!
