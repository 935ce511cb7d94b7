//! The session: a state machine that decides, from each kernel reply, which
//! request comes next. Acquisition runs device → size query → VM → vCPU →
//! mapping; teardown releases in the reverse order. A failed step turns the
//! session into teardown of everything acquired so far, and the first failure
//! is the one reported at the end.

use vstd::prelude::*;
use crate::config::RequestCodes;
use crate::error::{BootError, ErrorKind, Reply, Stage, error_of};
use crate::resources::{
    DeviceHandle, MappingSize, SharedStateMapping, VcpuContext, VmContext, mapping_size_result,
    query_mapping_size,
};

verus! {

/// Which reply the session waits for.
#[derive(Clone, Copy, Debug, PartialEq, Eq, Structural)]
pub enum Phase {
    Opening,
    Querying,
    CreatingVm,
    CreatingVcpu,
    Mapping,
    /// Everything is acquired; the executor drives the vCPU until shutdown.
    Running,
    Releasing,
    Done,
}

/// What the caller is asked to do next.
#[derive(Clone, Copy, Debug, PartialEq, Eq)]
pub enum Action {
    /// Open the device node read/write, close-on-exec.
    Open,
    /// Issue the mapping-size query on the device descriptor.
    QuerySize { device: i64, code: u64 },
    /// Issue the VM-creation request on the device descriptor.
    CreateVm { device: i64, code: u64 },
    /// Issue the vCPU-creation request on the VM descriptor.
    CreateVcpu { vm: i64, code: u64 },
    /// Map `len` bytes of the vCPU descriptor, read/write and shared, at offset 0.
    MapState { vcpu: i64, len: usize },
    /// Hand the vCPU and its shared state region to the executor.
    Run { vcpu: i64, addr: usize, len: usize },
    /// Unmap the shared state region.
    Unmap { addr: usize, len: usize },
    /// Close a descriptor.
    Close { fd: i64 },
    /// The session is over; `error` is its first failure, if any.
    Finish { error: Option<BootError> },
}

/// A resource the session holds.
#[derive(Clone, Copy, Debug, PartialEq, Eq, Structural)]
pub enum Resource {
    Device(i64),
    Vm(i64),
    Vcpu(i64),
    Region(usize, usize),
}

/// The abstract state of a session. `held` lists the resources held, in
/// order of acquisition; `size` is the queried mapping size (0 before the
/// query); `error` is the first failure; `later` the release failures after it.
pub struct Model {
    pub phase: Phase,
    pub codes: RequestCodes,
    pub held: Seq<Resource>,
    pub size: usize,
    pub error: Option<BootError>,
    pub later: Seq<BootError>,
}

pub open spec fn initial(codes: RequestCodes) -> Model {
    Model { phase: Phase::Opening, codes, held: seq![], size: 0, error: None, later: seq![] }
}

pub open spec fn descriptor_of(r: Resource) -> i64 {
    match r {
        Resource::Device(fd) => fd,
        Resource::Vm(fd) => fd,
        Resource::Vcpu(fd) => fd,
        Resource::Region(_, _) => -1i64,
    }
}

/// The request that releases a resource.
pub open spec fn release_action(r: Resource) -> Action {
    match r {
        Resource::Region(addr, len) => Action::Unmap { addr, len },
        _ => Action::Close { fd: descriptor_of(r) },
    }
}

/// The error for a rejected release of a resource.
pub open spec fn release_error(r: Resource, reply: Reply) -> BootError {
    match r {
        Resource::Device(_) => error_of(ErrorKind::ReleaseFailed, Stage::CloseDevice, reply),
        Resource::Vm(_) => error_of(ErrorKind::ReleaseFailed, Stage::CloseVm, reply),
        Resource::Vcpu(_) => error_of(ErrorKind::ReleaseFailed, Stage::CloseVcpu, reply),
        Resource::Region(_, _) => error_of(ErrorKind::MappingFailed, Stage::UnmapState, reply),
    }
}

/// The resources are a prefix of device, VM, vCPU, region.
pub open spec fn chain(held: Seq<Resource>) -> bool {
    &&& held.len() <= 4
    &&& held.len() > 0 ==> held[0] is Device
    &&& held.len() > 1 ==> held[1] is Vm
    &&& held.len() > 2 ==> held[2] is Vcpu
    &&& held.len() > 3 ==> held[3] is Region
}

pub open spec fn model_wf(m: Model) -> bool {
    &&& chain(m.held)
    &&& m.held.len() > 3 ==> m.held[3]->Region_1 == m.size
    &&& match m.phase {
        Phase::Opening => m.held.len() == 0 && m.error is None,
        Phase::Querying => m.held.len() == 1 && m.error is None,
        Phase::CreatingVm => m.held.len() == 1 && m.error is None && m.size > 0,
        Phase::CreatingVcpu => m.held.len() == 2 && m.error is None && m.size > 0,
        Phase::Mapping => m.held.len() == 3 && m.error is None && m.size > 0,
        Phase::Running => m.held.len() == 4 && m.error is None && m.size > 0,
        Phase::Releasing => m.held.len() > 0,
        Phase::Done => m.held.len() == 0,
    }
}

/// What follows a failed acquisition: release of the last resource held, or
/// the end of the session if nothing is held.
pub open spec fn fail(m: Model, e: BootError) -> (Model, Action) {
    if m.held.len() == 0 {
        (Model { phase: Phase::Done, error: Some(e), ..m }, Action::Finish { error: Some(e) })
    } else {
        (Model { phase: Phase::Releasing, error: Some(e), ..m }, release_action(m.held.last()))
    }
}

/// The session's answer to the reply of a release request.
pub open spec fn released(m: Model, reply: Reply) -> (Model, Action) {
    let rest = m.held.drop_last();
    let e = release_error(m.held.last(), reply);
    let (error, later) = if reply.ret >= 0 {
        (m.error, m.later)
    } else if m.error is None {
        (Some(e), m.later)
    } else {
        (m.error, m.later.push(e))
    };
    if rest.len() == 0 {
        (Model { phase: Phase::Done, held: rest, error, later, ..m }, Action::Finish { error })
    } else {
        (Model { phase: Phase::Releasing, held: rest, error, later, ..m }, release_action(rest.last()))
    }
}

/// The session's next state and request after a kernel reply.
pub open spec fn step(m: Model, reply: Reply) -> (Model, Action) {
    match m.phase {
        Phase::Opening => if reply.ret < 0 {
            fail(m, error_of(ErrorKind::ResourceUnavailable, Stage::OpenDevice, reply))
        } else {
            (
                Model { phase: Phase::Querying, held: seq![Resource::Device(reply.ret)], ..m },
                Action::QuerySize { device: reply.ret, code: m.codes.get_vcpu_mmap_size },
            )
        },
        Phase::Querying => match mapping_size_result(reply) {
            Err(e) => fail(m, e),
            Ok(n) => (
                Model { phase: Phase::CreatingVm, size: n, ..m },
                Action::CreateVm { device: descriptor_of(m.held[0]), code: m.codes.create_vm },
            ),
        },
        Phase::CreatingVm => if reply.ret < 0 {
            fail(m, error_of(ErrorKind::ResourceUnavailable, Stage::CreateVm, reply))
        } else {
            (
                Model { phase: Phase::CreatingVcpu, held: m.held.push(Resource::Vm(reply.ret)), ..m },
                Action::CreateVcpu { vm: reply.ret, code: m.codes.create_vcpu },
            )
        },
        Phase::CreatingVcpu => if reply.ret < 0 {
            fail(m, error_of(ErrorKind::ResourceUnavailable, Stage::CreateVcpu, reply))
        } else {
            (
                Model { phase: Phase::Mapping, held: m.held.push(Resource::Vcpu(reply.ret)), ..m },
                Action::MapState { vcpu: reply.ret, len: m.size },
            )
        },
        Phase::Mapping => if reply.ret < 0 {
            fail(m, error_of(ErrorKind::MappingFailed, Stage::MapState, reply))
        } else {
            (
                Model {
                    phase: Phase::Running,
                    held: m.held.push(Resource::Region(reply.ret as usize, m.size)),
                    ..m
                },
                Action::Run { vcpu: descriptor_of(m.held[2]), addr: reply.ret as usize, len: m.size },
            )
        },
        Phase::Running => (
            m,
            Action::Run { vcpu: descriptor_of(m.held[2]), addr: m.held[3]->Region_0, len: m.size },
        ),
        Phase::Releasing => released(m, reply),
        Phase::Done => (m, Action::Finish { error: m.error }),
    }
}

/// Ending a running session: release of the shared state region comes first.
pub open spec fn shut_down(m: Model) -> (Model, Action) {
    (Model { phase: Phase::Releasing, ..m }, release_action(m.held.last()))
}

/// The state reached, and the requests issued, when the replies `rs` come
/// in one after the other.
pub open spec fn run(m: Model, rs: Seq<Reply>) -> (Model, Seq<Action>)
    decreases rs.len(),
{
    if rs.len() == 0 {
        (m, seq![])
    } else {
        let (m1, a) = step(m, rs[0]);
        let (m2, acts) = run(m1, rs.drop_first());
        (m2, seq![a] + acts)
    }
}

/// The phases in which the session is still acquiring resources.
pub open spec fn acquiring(phase: Phase) -> bool {
    ||| phase is Opening
    ||| phase is Querying
    ||| phase is CreatingVm
    ||| phase is CreatingVcpu
    ||| phase is Mapping
}

/// Every reply keeps the session well formed.
pub proof fn lemma_step_wf(m: Model, reply: Reply)
    requires
        model_wf(m),
    ensures
        model_wf(step(m, reply).0),
{
}

/// Ending a running session keeps it well formed.
pub proof fn lemma_shut_down_wf(m: Model)
    requires
        model_wf(m),
        m.phase == Phase::Running,
    ensures
        model_wf(shut_down(m).0),
{
}

/// Once the session is releasing, the replies to its release requests close
/// every resource still held, last acquired first; the session then ends,
/// holding nothing, with the failure it already had kept as its error.
pub proof fn lemma_unwind(m: Model, rs: Seq<Reply>)
    requires
        model_wf(m),
        m.phase == Phase::Releasing,
        rs.len() == m.held.len(),
    ensures
        run(m, rs).0.phase == Phase::Done,
        run(m, rs).0.held.len() == 0,
        m.error is Some ==> run(m, rs).0.error == m.error,
        run(m, rs).1.len() == rs.len(),
        forall|i: int|
            0 <= i < rs.len() - 1 ==> run(m, rs).1[i] == release_action(
                m.held[m.held.len() - 2 - i],
            ),
        run(m, rs).1.last() == (Action::Finish { error: run(m, rs).0.error }),
    decreases rs.len(),
{
    let (m1, a) = step(m, rs[0]);
    let rest = rs.drop_first();
    lemma_step_wf(m, rs[0]);
    if m.held.len() == 1 {
        assert(rest.len() == 0);
    } else {
        lemma_unwind(m1, rest);
        let acts = run(m, rs).1;
        let acts1 = run(m1, rest).1;
        assert(acts == seq![a] + acts1);
        assert forall|i: int| 0 <= i < rs.len() - 1 implies acts[i] == release_action(
            m.held[m.held.len() - 2 - i],
        ) by {
            if i > 0 {
                assert(acts[i] == acts1[i - 1]);
                assert(m1.held[m1.held.len() - 2 - (i - 1)] == m.held[m.held.len() - 2 - i]);
            }
        }
    }
}

/// A failed acquisition step leaks nothing: the requests that follow it
/// release every resource acquired before it, last acquired first, and the
/// session ends holding nothing and reporting that failure.
pub proof fn lemma_failure_releases_all(m: Model, reply: Reply, rs: Seq<Reply>)
    requires
        model_wf(m),
        acquiring(m.phase),
        step(m, reply).0.error is Some,
        rs.len() == m.held.len(),
    ensures
        ({
            let (last, acts) = run(m, seq![reply] + rs);
            &&& last.phase == Phase::Done
            &&& last.held.len() == 0
            &&& last.error == step(m, reply).0.error
            &&& acts.len() == m.held.len() + 1
            &&& forall|i: int|
                0 <= i < m.held.len() ==> acts[i] == release_action(m.held[m.held.len() - 1 - i])
            &&& acts.last() == (Action::Finish { error: last.error })
        }),
{
    let all = seq![reply] + rs;
    let (m1, a) = step(m, reply);
    assert(all[0] == reply);
    assert(all.drop_first() =~= rs);
    lemma_step_wf(m, reply);
    assert(m1.held == m.held);
    assert(run(m, all).0 == run(m1, rs).0);
    assert(run(m, all).1 == seq![a] + run(m1, rs).1);
    if m.held.len() == 0 {
        assert(rs.len() == 0);
        assert(run(m1, rs).1 =~= seq![]);
        assert(run(m, all).1 =~= seq![a]);
    } else {
        lemma_unwind(m1, rs);
        let acts = run(m, all).1;
        let acts1 = run(m1, rs).1;
        assert(acts.last() == acts1.last());
        assert forall|i: int| 0 <= i < m.held.len() implies acts[i] == release_action(
            m.held[m.held.len() - 1 - i],
        ) by {
            if i > 0 {
                assert(acts[i] == acts1[i - 1]);
            }
        }
    }
}

/// A release reply ends the released resource for good: it is dropped from
/// what the session holds, whether the kernel accepted the release or not,
/// and a failed release is reported without replacing an earlier failure.
pub proof fn lemma_release_is_final(m: Model, reply: Reply)
    requires
        model_wf(m),
        m.phase == Phase::Releasing,
    ensures
        step(m, reply).0.held == m.held.drop_last(),
        !step(m, reply).0.held.contains(m.held.last()),
        m.error is Some ==> step(m, reply).0.error == m.error,
        reply.ret < 0 && m.error is None ==> step(m, reply).0.error == Some(
            release_error(m.held.last(), reply),
        ),
{
    let rest = m.held.drop_last();
    assert forall|i: int| 0 <= i < rest.len() implies rest[i] != m.held.last() by {
        assert(rest[i] == m.held[i]);
    }
}

/// The mapping size is fixed by the session's one query: no later reply
/// changes it, no later request queries again, and the mapping request asks
/// for exactly that size.
pub proof fn lemma_size_fixed(m: Model, reply: Reply)
    requires
        model_wf(m),
        m.phase != Phase::Querying,
    ensures
        step(m, reply).0.size == m.size,
        m.phase != Phase::Opening ==> !(step(m, reply).1 is QuerySize),
        m.phase == Phase::CreatingVcpu && reply.ret >= 0 ==> step(m, reply).1 == (Action::MapState {
            vcpu: reply.ret,
            len: m.size,
        }),
{
    let rest = m.held.drop_last();
    if m.phase == Phase::Releasing && rest.len() > 0 {
        assert(rest.last() == m.held[rest.len() - 1]);
    }
}

/// When every kernel call succeeds, the session asks, in this order, to
/// query the mapping size, create the VM, create the vCPU and map exactly the
/// queried size, then hands the vCPU to the executor; on shutdown it unmaps
/// the region, closes the vCPU, the VM and the device, and ends without error.
pub proof fn lemma_happy_path(codes: RequestCodes, acquire: Seq<Reply>, release: Seq<Reply>)
    requires
        acquire.len() == 5,
        release.len() == 4,
        forall|i: int| 0 <= i < 5 ==> acquire[i].ret >= 0,
        0 < acquire[1].ret <= usize::MAX,
        forall|i: int| 0 <= i < 4 ==> release[i].ret >= 0,
    ensures
        ({
            let device = acquire[0].ret;
            let len = acquire[1].ret as usize;
            let vm = acquire[2].ret;
            let vcpu = acquire[3].ret;
            let addr = acquire[4].ret as usize;
            let (up, acts) = run(initial(codes), acquire);
            let (closing, first) = shut_down(up);
            let (down, rest) = run(closing, release);
            &&& up.phase == Phase::Running
            &&& acts == seq![
                Action::QuerySize { device, code: codes.get_vcpu_mmap_size },
                Action::CreateVm { device, code: codes.create_vm },
                Action::CreateVcpu { vm, code: codes.create_vcpu },
                Action::MapState { vcpu, len },
                Action::Run { vcpu, addr, len },
            ]
            &&& first == (Action::Unmap { addr, len })
            &&& rest == seq![
                Action::Close { fd: vcpu },
                Action::Close { fd: vm },
                Action::Close { fd: device },
                Action::Finish { error: None },
            ]
            &&& down.phase == Phase::Done
            &&& down.held.len() == 0
        }),
{
    reveal_with_fuel(run, 6);
    let m0 = initial(codes);
    let (m1, a1) = step(m0, acquire[0]);
    let (m2, a2) = step(m1, acquire[1]);
    let (m3, a3) = step(m2, acquire[2]);
    let (m4, a4) = step(m3, acquire[3]);
    let (m5, a5) = step(m4, acquire[4]);
    assert(acquire.drop_first().drop_first().drop_first().drop_first().drop_first().len() == 0);
    assert(run(m0, acquire).1 =~= seq![a1, a2, a3, a4, a5]);
    let (c0, u) = shut_down(m5);
    let (c1, b1) = step(c0, release[0]);
    let (c2, b2) = step(c1, release[1]);
    let (c3, b3) = step(c2, release[2]);
    let (c4, b4) = step(c3, release[3]);
    assert(release.drop_first().drop_first().drop_first().drop_first().len() == 0);
    assert(c1.held =~= seq![Resource::Device(acquire[0].ret), Resource::Vm(acquire[2].ret), Resource::Vcpu(acquire[3].ret)]);
    assert(c2.held =~= seq![Resource::Device(acquire[0].ret), Resource::Vm(acquire[2].ret)]);
    assert(c3.held =~= seq![Resource::Device(acquire[0].ret)]);
    assert(run(c0, release).1 =~= seq![b1, b2, b3, b4]);
}

/// A session with the kernel resources it holds. The caller performs each
/// requested action and hands the kernel's reply to `advance`.
pub struct Session {
    codes: RequestCodes,
    phase: Phase,
    device: Option<DeviceHandle>,
    size: Option<MappingSize>,
    vm: Option<VmContext>,
    vcpu: Option<VcpuContext>,
    mapping: Option<SharedStateMapping>,
    error: Option<BootError>,
    later: Vec<BootError>,
}

impl View for Session {
    type V = Model;

    closed spec fn view(&self) -> Model {
        Model {
            phase: self.phase,
            codes: self.codes,
            held: self.held(),
            size: match self.size {
                Some(s) => s.bytes(),
                None => 0,
            },
            error: self.error,
            later: self.later@,
        }
    }
}

impl Session {
    closed spec fn held(&self) -> Seq<Resource> {
        let d = Resource::Device(self.device->Some_0.fd());
        let v = Resource::Vm(self.vm->Some_0.fd());
        let c = Resource::Vcpu(self.vcpu->Some_0.fd());
        let r = Resource::Region(self.mapping->Some_0.addr(), self.mapping->Some_0.len());
        if self.device is None {
            seq![]
        } else if self.vm is None {
            seq![d]
        } else if self.vcpu is None {
            seq![d, v]
        } else if self.mapping is None {
            seq![d, v, c]
        } else {
            seq![d, v, c, r]
        }
    }

    /// The session's resources are held in acquisition order and agree with its phase.
    pub closed spec fn wf(&self) -> bool {
        &&& model_wf(self@)
        &&& self.vm is Some ==> self.device is Some
        &&& self.vcpu is Some ==> self.vm is Some
        &&& self.mapping is Some ==> self.vcpu is Some
        &&& self.size is None ==> self@.size == 0
    }

    /// A new session, and its first request: open the device.
    pub fn start(codes: RequestCodes) -> (r: (Session, Action))
        ensures
            r.0.wf(),
            r.0@ == initial(codes),
            r.1 == Action::Open,
    {
        let s = Session {
            codes,
            phase: Phase::Opening,
            device: None,
            size: None,
            vm: None,
            vcpu: None,
            mapping: None,
            error: None,
            later: Vec::new(),
        };
        proof {
            assert(s@.later =~= seq![]);
        }
        (s, Action::Open)
    }

    pub fn phase(&self) -> (r: Phase)
        ensures
            r == self@.phase,
    {
        self.phase
    }

    /// The first failure of the session, if any.
    pub fn error(&self) -> (r: Option<BootError>)
        ensures
            r == self@.error,
    {
        self.error
    }

    /// The release failures that came after the first failure.
    pub fn release_failures(&self) -> (r: &Vec<BootError>)
        ensures
            r@ == self@.later,
    {
        &self.later
    }

    /// The request that releases the last resource held, or the end of the
    /// session when nothing is held.
    fn next_release(&self) -> (r: Action)
        requires
            self.wf(),
        ensures
            self.held().len() > 0 ==> r == release_action(self.held().last()),
            self.held().len() == 0 ==> r == (Action::Finish { error: self.error }),
    {
        match &self.mapping {
            Some(m) => {
                return Action::Unmap { addr: m.address(), len: m.length() };
            },
            None => {},
        }
        match &self.vcpu {
            Some(c) => {
                return Action::Close { fd: c.descriptor() };
            },
            None => {},
        }
        match &self.vm {
            Some(v) => {
                return Action::Close { fd: v.descriptor() };
            },
            None => {},
        }
        match &self.device {
            Some(d) => Action::Close { fd: d.descriptor() },
            None => Action::Finish { error: self.error },
        }
    }

    /// Takes the kernel's reply to the last request and returns the next one.
    pub fn advance(&mut self, reply: Reply) -> (r: Action)
        requires
            old(self).wf(),
        ensures
            final(self).wf(),
            (final(self)@, r) == step(old(self)@, reply),
    {
        match self.phase {
            Phase::Opening => match DeviceHandle::open(reply) {
                Ok(d) => {
                    let fd = d.descriptor();
                    self.device = Some(d);
                    self.phase = Phase::Querying;
                    assert(self.held() =~= seq![Resource::Device(reply.ret)]);
                    Action::QuerySize { device: fd, code: self.codes.get_vcpu_mmap_size }
                },
                Err(e) => self.fail(e),
            },
            Phase::Querying => {
                let (fd, res) = match &self.device {
                    Some(d) => (d.descriptor(), query_mapping_size(d, reply)),
                    None => {
                        proof {
                            assert(false);
                        }
                        return Action::Open;
                    },
                };
                match res {
                    Ok(n) => {
                        self.size = Some(n);
                        self.phase = Phase::CreatingVm;
                        Action::CreateVm { device: fd, code: self.codes.create_vm }
                    },
                    Err(e) => self.fail(e),
                }
            },
            Phase::CreatingVm => {
                let res = match &self.device {
                    Some(d) => VmContext::create(d, reply),
                    None => {
                        proof {
                            assert(false);
                        }
                        return Action::Open;
                    },
                };
                match res {
                    Ok(v) => {
                        let fd = v.descriptor();
                        self.vm = Some(v);
                        self.phase = Phase::CreatingVcpu;
                        assert(self.held() =~= old(self).held().push(Resource::Vm(reply.ret)));
                        Action::CreateVcpu { vm: fd, code: self.codes.create_vcpu }
                    },
                    Err(e) => self.fail(e),
                }
            },
            Phase::CreatingVcpu => {
                let (res, len) = match (&self.vm, self.size) {
                    (Some(v), Some(n)) => (VcpuContext::create(v, reply), n.len()),
                    _ => {
                        proof {
                            assert(false);
                        }
                        return Action::Open;
                    },
                };
                match res {
                    Ok(c) => {
                        let fd = c.descriptor();
                        self.vcpu = Some(c);
                        self.phase = Phase::Mapping;
                        assert(self.held() =~= old(self).held().push(Resource::Vcpu(reply.ret)));
                        Action::MapState { vcpu: fd, len }
                    },
                    Err(e) => self.fail(e),
                }
            },
            Phase::Mapping => {
                let (res, fd) = match (&self.vcpu, self.size) {
                    (Some(c), Some(n)) => (SharedStateMapping::map(c, n, reply), c.descriptor()),
                    _ => {
                        proof {
                            assert(false);
                        }
                        return Action::Open;
                    },
                };
                match res {
                    Ok(m) => {
                        let addr = m.address();
                        let len = m.length();
                        self.mapping = Some(m);
                        self.phase = Phase::Running;
                        assert(self.held() =~= old(self).held().push(
                            Resource::Region(reply.ret as usize, old(self)@.size),
                        ));
                        Action::Run { vcpu: fd, addr, len }
                    },
                    Err(e) => self.fail(e),
                }
            },
            Phase::Running => match (&self.vcpu, &self.mapping) {
                (Some(c), Some(m)) => Action::Run {
                    vcpu: c.descriptor(),
                    addr: m.address(),
                    len: m.length(),
                },
                _ => {
                    proof {
                        assert(false);
                    }
                    Action::Open
                },
            },
            Phase::Releasing => {
                let e = self.release_last(reply);
                if reply.ret < 0 {
                    if self.error.is_none() {
                        self.error = Some(e);
                    } else {
                        self.later.push(e);
                    }
                }
                if self.device.is_none() {
                    self.phase = Phase::Done;
                }
                self.next_release()
            },
            Phase::Done => Action::Finish { error: self.error },
        }
    }

    /// Ends a running session: asks for the shared state region to be
    /// unmapped, then the rest to be closed, as replies come in.
    pub fn shutdown(&mut self) -> (r: Action)
        requires
            old(self).wf(),
            old(self)@.phase == Phase::Running,
        ensures
            final(self).wf(),
            (final(self)@, r) == shut_down(old(self)@),
    {
        self.phase = Phase::Releasing;
        self.next_release()
    }

    /// Drops the last resource held, whose release request was answered by
    /// `reply`, and returns the error that a rejected release would be.
    fn release_last(&mut self, reply: Reply) -> (r: BootError)
        requires
            old(self).wf(),
            old(self)@.phase == Phase::Releasing,
        ensures
            final(self).held() == old(self).held().drop_last(),
            r == release_error(old(self).held().last(), reply),
            final(self).phase == old(self).phase,
            final(self).codes == old(self).codes,
            final(self).size == old(self).size,
            final(self).error == old(self).error,
            final(self).later == old(self).later,
            final(self).vm is Some ==> final(self).device is Some,
            final(self).vcpu is Some ==> final(self).vm is Some,
            final(self).mapping is Some ==> final(self).vcpu is Some,
    {
        match self.mapping.take() {
            Some(m) => {
                let _ = m.release();
                return BootError::new(ErrorKind::MappingFailed, Stage::UnmapState, reply);
            },
            None => {},
        }
        match self.vcpu.take() {
            Some(c) => {
                let _ = c.release();
                return BootError::new(ErrorKind::ReleaseFailed, Stage::CloseVcpu, reply);
            },
            None => {},
        }
        match self.vm.take() {
            Some(v) => {
                let _ = v.release();
                return BootError::new(ErrorKind::ReleaseFailed, Stage::CloseVm, reply);
            },
            None => {},
        }
        let d = self.device.take();
        match d {
            Some(d) => {
                let _ = d.release();
            },
            None => {},
        }
        BootError::new(ErrorKind::ReleaseFailed, Stage::CloseDevice, reply)
    }

    /// Records the failure of an acquisition and starts releasing.
    fn fail(&mut self, e: BootError) -> (r: Action)
        requires
            old(self).wf(),
            old(self)@.error is None,
        ensures
            final(self).wf(),
            (final(self)@, r) == fail(old(self)@, e),
    {
        self.error = Some(e);
        if self.device.is_none() {
            self.phase = Phase::Done;
        } else {
            self.phase = Phase::Releasing;
        }
        self.next_release()
    }
}

} // verus!
