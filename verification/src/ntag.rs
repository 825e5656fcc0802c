//! Fixed layouts of the tag's manufacturer, lock and configuration
//! blocks, with checked byte codecs.

use vstd::prelude::*;
use crate::endian::read_bytes;

verus! {

/// First manufacturer block: unique id part 1, check byte, unique id
/// part 2.  Eight bytes.
pub struct Manufacturer1 {
    pub uid_p1: Vec<u8>,
    pub check_byte_1: u8,
    pub uid_p2: Vec<u8>,
}

impl Manufacturer1 {
    pub open spec fn wf(&self) -> bool {
        self.uid_p1@.len() == 3 && self.uid_p2@.len() == 4
    }

    /// The eight bytes of the block, in layout order.
    pub open spec fn spec_bytes(&self) -> Seq<u8> {
        self.uid_p1@ + seq![self.check_byte_1] + self.uid_p2@
    }

    pub fn parse(data: &[u8], off: usize) -> (r: Self)
        requires
            off + 8 <= data@.len(),
        ensures
            r.wf(),
            r.spec_bytes() == data@.subrange(off as int, off + 8),
    {
        let n = data.len();
        let r = Manufacturer1 {
            uid_p1: read_bytes(data, off, 3),
            check_byte_1: data[off + 3],
            uid_p2: read_bytes(data, off + 4, 4),
        };
        proof {
            assert(r.spec_bytes() =~= data@.subrange(off as int, off + 8));
        }
        r
    }

    /// Appends the block's eight bytes.
    pub fn append_bytes(&self, out: &mut Vec<u8>)
        requires
            self.wf(),
        ensures
            final(out)@ == old(out)@ + self.spec_bytes(),
    {
        out.extend_from_slice(self.uid_p1.as_slice());
        out.push(self.check_byte_1);
        out.extend_from_slice(self.uid_p2.as_slice());
        proof {
            assert(final(out)@ =~= old(out)@ + self.spec_bytes());
        }
    }

    /// Copies the block.
    pub fn duplicate(&self) -> (r: Self)
        ensures
            r.uid_p1@ == self.uid_p1@,
            r.check_byte_1 == self.check_byte_1,
            r.uid_p2@ == self.uid_p2@,
    {
        let mut uid_p1: Vec<u8> = Vec::new();
        uid_p1.extend_from_slice(self.uid_p1.as_slice());
        let mut uid_p2: Vec<u8> = Vec::new();
        uid_p2.extend_from_slice(self.uid_p2.as_slice());
        proof {
            assert(uid_p1@ =~= self.uid_p1@);
            assert(uid_p2@ =~= self.uid_p2@);
        }
        Manufacturer1 { uid_p1, check_byte_1: self.check_byte_1, uid_p2 }
    }
}

/// Second manufacturer block: another check byte, an internal byte, the
/// static lock bytes, and the capability container.  Eight bytes.
pub struct Manufacturer2 {
    pub check_byte_2: u8,
    pub internal: u8,
    pub static_lock_bytes: Vec<u8>,
    pub capability_container: Vec<u8>,
}

impl Manufacturer2 {
    pub open spec fn wf(&self) -> bool {
        self.static_lock_bytes@.len() == 2 && self.capability_container@.len() == 4
    }

    pub open spec fn spec_bytes(&self) -> Seq<u8> {
        seq![self.check_byte_2, self.internal] + self.static_lock_bytes@
            + self.capability_container@
    }

    pub fn parse(data: &[u8], off: usize) -> (r: Self)
        requires
            off + 8 <= data@.len(),
        ensures
            r.wf(),
            r.spec_bytes() == data@.subrange(off as int, off + 8),
    {
        let n = data.len();
        let r = Manufacturer2 {
            check_byte_2: data[off],
            internal: data[off + 1],
            static_lock_bytes: read_bytes(data, off + 2, 2),
            capability_container: read_bytes(data, off + 4, 4),
        };
        proof {
            assert(r.spec_bytes() =~= data@.subrange(off as int, off + 8));
        }
        r
    }

    /// Copies the block.
    pub fn duplicate(&self) -> (r: Self)
        ensures
            r.check_byte_2 == self.check_byte_2,
            r.internal == self.internal,
            r.static_lock_bytes@ == self.static_lock_bytes@,
            r.capability_container@ == self.capability_container@,
    {
        let mut static_lock_bytes: Vec<u8> = Vec::new();
        static_lock_bytes.extend_from_slice(self.static_lock_bytes.as_slice());
        let mut capability_container: Vec<u8> = Vec::new();
        capability_container.extend_from_slice(self.capability_container.as_slice());
        proof {
            assert(static_lock_bytes@ =~= self.static_lock_bytes@);
            assert(capability_container@ =~= self.capability_container@);
        }
        Manufacturer2 {
            check_byte_2: self.check_byte_2,
            internal: self.internal,
            static_lock_bytes,
            capability_container,
        }
    }
}

/// Dynamic lock bytes and the reserved trailer byte.  Four bytes.
pub struct DynamicLock {
    pub dyn_lock_bytes: Vec<u8>,
    pub rfui: u8,
}

impl DynamicLock {
    pub open spec fn wf(&self) -> bool {
        self.dyn_lock_bytes@.len() == 3
    }

    pub open spec fn spec_bytes(&self) -> Seq<u8> {
        self.dyn_lock_bytes@ + seq![self.rfui]
    }

    pub fn parse(data: &[u8], off: usize) -> (r: Self)
        requires
            off + 4 <= data@.len(),
        ensures
            r.wf(),
            r.spec_bytes() == data@.subrange(off as int, off + 4),
    {
        let n = data.len();
        let r = DynamicLock { dyn_lock_bytes: read_bytes(data, off, 3), rfui: data[off + 3] };
        proof {
            assert(r.spec_bytes() =~= data@.subrange(off as int, off + 4));
        }
        r
    }
}

/// The two tag configuration words.  Eight bytes.
pub struct Config {
    pub cfg_0: Vec<u8>,
    pub cfg_1: Vec<u8>,
}

impl Config {
    pub open spec fn wf(&self) -> bool {
        self.cfg_0@.len() == 4 && self.cfg_1@.len() == 4
    }

    pub open spec fn spec_bytes(&self) -> Seq<u8> {
        self.cfg_0@ + self.cfg_1@
    }

    pub fn parse(data: &[u8], off: usize) -> (r: Self)
        requires
            off + 8 <= data@.len(),
        ensures
            r.wf(),
            r.spec_bytes() == data@.subrange(off as int, off + 8),
    {
        let n = data.len();
        let r = Config { cfg_0: read_bytes(data, off, 4), cfg_1: read_bytes(data, off + 4, 4) };
        proof {
            assert(r.spec_bytes() =~= data@.subrange(off as int, off + 8));
        }
        r
    }
}

} // verus!
