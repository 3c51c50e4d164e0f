//! Reference semantics of a submitted command sequence, as seen by the
//! host: every buffer is a byte vector indexed by its id, a copy command
//! replaces the destination's bytes with the source's, and a dispatch is
//! left to the opaque kernel it names, so it preserves the modeled contents.
//! This is the semantics against which the transfer machinery is proved and
//! exercised, independent of any kernel.

use vstd::prelude::*;
use crate::commands::Command;

verus! {

/// What one command does to the buffer contents.
pub open spec fn spec_apply(pre: Seq<Seq<u8>>, cmd: Command) -> Seq<Seq<u8>> {
    match cmd {
        Command::CopyBufferToBuffer { src, dst, size } => pre.update(dst as int, pre[src as int]),
        Command::Dispatch { .. } => pre,
    }
}

/// What a whole sequence does: the commands applied in order.
pub open spec fn spec_apply_seq(pre: Seq<Seq<u8>>, cmds: Seq<Command>) -> Seq<Seq<u8>>
    decreases cmds.len(),
{
    if cmds.len() == 0 {
        pre
    } else {
        spec_apply_seq(spec_apply(pre, cmds[0]), cmds.drop_first())
    }
}

/// Applying a sequence extended by one command applies that command last.
pub proof fn lemma_apply_seq_snoc(pre: Seq<Seq<u8>>, cmds: Seq<Command>, cmd: Command)
    ensures
        spec_apply_seq(pre, cmds.push(cmd)) == spec_apply(spec_apply_seq(pre, cmds), cmd),
    decreases cmds.len(),
{
    if cmds.len() == 0 {
        assert(spec_apply_seq(pre, cmds) == pre);
        assert(cmds.push(cmd)[0] == cmd);
        assert(cmds.push(cmd).drop_first() =~= Seq::<Command>::empty());
        assert(spec_apply_seq(pre, cmds.push(cmd)) == spec_apply_seq(
            spec_apply(pre, cmd),
            cmds.push(cmd).drop_first(),
        ));
        assert(spec_apply_seq(spec_apply(pre, cmd), cmds.push(cmd).drop_first()) == spec_apply(
            pre,
            cmd,
        ));
    } else {
        assert(cmds.push(cmd)[0] == cmds[0]);
        assert(cmds.push(cmd).drop_first() =~= cmds.drop_first().push(cmd));
        assert(spec_apply_seq(pre, cmds.push(cmd)) == spec_apply_seq(
            spec_apply(pre, cmds[0]),
            cmds.drop_first().push(cmd),
        ));
        lemma_apply_seq_snoc(spec_apply(pre, cmds[0]), cmds.drop_first(), cmd);
        assert(spec_apply_seq(pre, cmds) == spec_apply_seq(
            spec_apply(pre, cmds[0]),
            cmds.drop_first(),
        ));
    }
}

/// The host-side store: one byte vector per buffer id.
pub struct StoreModel {
    /// The buffers, indexed by buffer id.
    pub bufs: Vec<Vec<u8>>,
}

impl StoreModel {
    /// The modeled contents: each buffer as a byte sequence.
    pub open spec fn contents(&self) -> Seq<Seq<u8>> {
        self.bufs@.map_values(|v: Vec<u8>| v@)
    }

    /// Whether a command stays within this store: a copy names two distinct
    /// existing buffers and moves exactly their common full size.
    pub open spec fn cmd_fits(&self, cmd: Command) -> bool {
        match cmd {
            Command::CopyBufferToBuffer { src, dst, size } => {
                &&& (src as int) < self.contents().len()
                &&& (dst as int) < self.contents().len()
                &&& src != dst
                &&& self.contents()[src as int].len() == size
                &&& self.contents()[dst as int].len() == size
            },
            Command::Dispatch { .. } => true,
        }
    }

    /// An empty store.
    pub fn new() -> (r: StoreModel)
        ensures
            r.contents() =~= Seq::<Seq<u8>>::empty(),
    {
        StoreModel { bufs: Vec::new() }
    }

    /// Append one zero-filled buffer of the given byte size; its id is the
    /// previous buffer count.
    pub fn push_buffer(&mut self, size: usize)
        ensures
            final(self).contents() =~= old(self).contents().push(
                Seq::<u8>::new(size as nat, |i: int| 0u8),
            ),
    {
        let mut buf: Vec<u8> = Vec::new();
        let mut i: usize = 0;
        while i < size
            invariant
                i <= size,
                buf@ =~= Seq::<u8>::new(i as nat, |j: int| 0u8),
            decreases size - i,
        {
            buf.push(0u8);
            proof {
                assert(buf@ =~= Seq::<u8>::new((i + 1) as nat, |j: int| 0u8));
            }
            i = i + 1;
        }
        self.bufs.push(buf);
        proof {
            assert(self.contents() =~= old(self).contents().push(
                Seq::<u8>::new(size as nat, |i: int| 0u8),
            ));
        }
    }

    /// Number of buffers in the store.
    pub fn num_buffers(&self) -> (r: usize)
        ensures
            r == self.contents().len(),
    {
        self.bufs.len()
    }

    /// A copy of one buffer's bytes, for inspection.
    pub fn read_buffer(&self, id: usize) -> (r: Vec<u8>)
        requires
            id < self.contents().len(),
        ensures
            r@ == self.contents()[id as int],
    {
        crate::buff_utils::copy_bytes(&self.bufs[id])
    }

    /// Overwrite one buffer's bytes in place, as the driver does when the
    /// host fills a write-mapped staging buffer. The new bytes must have
    /// the buffer's fixed size.
    pub fn write_buffer(&mut self, id: usize, data: &Vec<u8>)
        requires
            id < old(self).contents().len(),
            data@.len() == old(self).contents()[id as int].len(),
        ensures
            final(self).contents() =~= old(self).contents().update(id as int, data@),
    {
        let v = crate::buff_utils::copy_bytes(data);
        self.bufs[id] = v;
        proof {
            assert(self.contents() =~= old(self).contents().update(id as int, data@));
        }
    }

    /// Execute one command on the store.
    pub fn apply_command(&mut self, cmd: &Command)
        requires
            old(self).cmd_fits(*cmd),
        ensures
            final(self).contents() =~= spec_apply(old(self).contents(), *cmd),
    {
        match cmd {
            Command::CopyBufferToBuffer { src, dst, size: _ } => {
                let v = crate::buff_utils::copy_bytes(&self.bufs[*src as usize]);
                self.bufs[*dst as usize] = v;
                proof {
                    assert(self.contents() =~= spec_apply(old(self).contents(), *cmd));
                }
            },
            Command::Dispatch { .. } => {
            },
        }
    }

    /// Execute a whole sequence on the store, in order.
    pub fn apply_sequence(&mut self, cmds: &Vec<Command>)
        requires
            forall|k: int| 0 <= k < cmds@.len() ==> old(self).cmd_fits(#[trigger] cmds@[k]),
        ensures
            final(self).contents() =~= spec_apply_seq(old(self).contents(), cmds@),
    {
        let ghost pre = self.contents();
        let mut i: usize = 0;
        while i < cmds.len()
            invariant
                i <= cmds@.len(),
                self.contents() =~= spec_apply_seq(pre, cmds@.subrange(0, i as int)),
                self.contents().len() == pre.len(),
                forall|j: int|
                    0 <= j < pre.len() ==> (#[trigger] self.contents()[j]).len() == pre[j].len(),
                forall|k: int| 0 <= k < cmds@.len() ==> self.cmd_fits(#[trigger] cmds@[k]),
            decreases cmds@.len() - i,
        {
            self.apply_command(&cmds[i]);
            proof {
                assert(cmds@.subrange(0, i + 1 as int) =~= cmds@.subrange(0, i as int).push(
                    cmds@[i as int],
                ));
                lemma_apply_seq_snoc(pre, cmds@.subrange(0, i as int), cmds@[i as int]);
            }
            i = i + 1;
        }
        proof {
            assert(cmds@.subrange(0, cmds@.len() as int) =~= cmds@);
        }
    }
}

/// Round trip through the copy/map bridge, independent of any kernel: bytes
/// written verbatim into a uniform pair's write-mapped staging buffer, then
/// copied staging to device, device to a mirroring storage location, and
/// that location's device buffer to its staging buffer, are read back
/// byte-identical from the read-mapped staging buffer.
pub proof fn lemma_write_read_round_trip(
    pre: Seq<Seq<u8>>,
    data: Seq<u8>,
    u_staging: u32,
    u_shader: u32,
    s_shader: u32,
    s_staging: u32,
    size: u64,
)
    requires
        (u_staging as int) < pre.len(),
        (u_shader as int) < pre.len(),
        (s_shader as int) < pre.len(),
        (s_staging as int) < pre.len(),
        u_staging != u_shader,
        u_shader != s_shader,
        s_shader != s_staging,
        u_staging != s_shader,
        u_staging != s_staging,
        u_shader != s_staging,
    ensures
        ({
            let written = pre.update(u_staging as int, data);
            let uploaded = spec_apply(
                written,
                Command::CopyBufferToBuffer { src: u_staging, dst: u_shader, size },
            );
            let mirrored = spec_apply(
                uploaded,
                Command::CopyBufferToBuffer { src: u_shader, dst: s_shader, size },
            );
            let staged = spec_apply(
                mirrored,
                Command::CopyBufferToBuffer { src: s_shader, dst: s_staging, size },
            );
            staged[s_staging as int] == data
        }),
{
}

} // verus!
