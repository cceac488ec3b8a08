//! Device-independent recordings of uploads, zero-fills and dispatches over
//! resource proxies. A proxy is an id with a declared size or format; memory
//! is only allocated when an execution engine resolves the recording.
use vstd::prelude::*;

use crate::shaders::{BindType, ImageFormat, ShaderId, ShaderRegistry};

verus! {

/// Placeholder for a buffer of `size` bytes.
#[derive(Clone, Copy, Debug, PartialEq, Eq, Structural)]
pub struct BufProxy {
    pub size: u64,
    pub id: u64,
}

/// Placeholder for an image.
#[derive(Clone, Copy, Debug, PartialEq, Eq, Structural)]
pub struct ImageProxy {
    pub width: u32,
    pub height: u32,
    pub format: ImageFormat,
    pub id: u64,
}

/// A proxy handed to a dispatch.
#[derive(Clone, Copy, Debug, PartialEq, Eq, Structural)]
pub enum ResourceProxy {
    Buf(BufProxy),
    Image(ImageProxy),
}

impl ResourceProxy {
    pub open spec fn id(self) -> u64 {
        match self {
            ResourceProxy::Buf(b) => b.id,
            ResourceProxy::Image(i) => i.id,
        }
    }
}

/// One operation of a recording.
#[derive(Debug)]
pub enum Command {
    /// Fill the buffer with host bytes.
    Upload(BufProxy, Vec<u8>),
    /// Fill the buffer with host bytes, read as configuration.
    UploadUniform(BufProxy, Vec<u8>),
    /// Run a compute stage over a grid of workgroups with these bindings.
    Dispatch(ShaderId, (u32, u32, u32), Vec<ResourceProxy>),
    /// Zero-fill the buffer.
    Clear(BufProxy),
}

/// What an operation is, with its bytes and bindings as sequences.
pub enum Op {
    Upload(BufProxy, Seq<u8>),
    UploadUniform(BufProxy, Seq<u8>),
    Dispatch(ShaderId, (u32, u32, u32), Seq<ResourceProxy>),
    Clear(BufProxy),
}

impl View for Command {
    type V = Op;

    open spec fn view(&self) -> Op {
        match self {
            Command::Upload(p, d) => Op::Upload(*p, d@),
            Command::UploadUniform(p, d) => Op::UploadUniform(*p, d@),
            Command::Dispatch(s, g, r) => Op::Dispatch(*s, *g, r@),
            Command::Clear(p) => Op::Clear(*p),
        }
    }
}

/// An ordered list of operations over proxies. Proxy ids are handed out in
/// increasing order from `next_id`, so no two proxies of one recording share
/// an id.
#[derive(Debug)]
pub struct Recording {
    pub commands: Vec<Command>,
    /// Label of each proxy, by id.
    pub labels: Vec<String>,
    pub next_id: u64,
}

/// Why a recording cannot be resolved.
#[derive(Clone, Copy, Debug, PartialEq, Eq, Structural)]
pub enum ResolveErrorKind {
    /// The dispatch names a stage that is not registered.
    UnknownShader,
    /// A proxy that this recording did not create.
    UnknownProxy,
    /// Upload of a number of bytes other than the proxy's size.
    SizeMismatch,
    /// Bindings that do not follow the stage's declared layout.
    BindingMismatch,
}

/// The first operation that cannot be resolved, and why.
#[derive(Clone, Copy, Debug, PartialEq, Eq, Structural)]
pub struct ResolveError {
    pub command: usize,
    pub kind: ResolveErrorKind,
}

/// A proxy fits the slot: buffers in buffer slots, images of the declared
/// format in image slots.
pub open spec fn binding_fits(p: ResourceProxy, t: BindType) -> bool {
    match (p, t) {
        (ResourceProxy::Buf(_), BindType::Uniform) => true,
        (ResourceProxy::Buf(_), BindType::BufReadOnly) => true,
        (ResourceProxy::Buf(_), BindType::Buffer) => true,
        (ResourceProxy::Image(i), BindType::Image(f)) => i.format == f,
        _ => false,
    }
}

pub open spec fn bindings_fit(b: Seq<ResourceProxy>, layout: Seq<BindType>) -> bool {
    &&& b.len() == layout.len()
    &&& forall|j: int| 0 <= j < b.len() ==> binding_fits(#[trigger] b[j], layout[j])
}

pub open spec fn all_declared(b: Seq<ResourceProxy>, next_id: u64) -> bool {
    forall|j: int| 0 <= j < b.len() ==> (#[trigger] b[j]).id() < next_id
}

/// Why a single operation cannot be resolved, if it cannot.
pub open spec fn command_error(
    c: Command,
    layouts: Seq<Seq<BindType>>,
    next_id: u64,
) -> Option<ResolveErrorKind> {
    match c {
        Command::Upload(p, data) => upload_error(p, data@, next_id),
        Command::UploadUniform(p, data) => upload_error(p, data@, next_id),
        Command::Clear(p) => if p.id < next_id {
            None
        } else {
            Some(ResolveErrorKind::UnknownProxy)
        },
        Command::Dispatch(shader, _, b) => if shader.0 >= layouts.len() {
            Some(ResolveErrorKind::UnknownShader)
        } else if !all_declared(b@, next_id) {
            Some(ResolveErrorKind::UnknownProxy)
        } else if !bindings_fit(b@, layouts[shader.0 as int]) {
            Some(ResolveErrorKind::BindingMismatch)
        } else {
            None
        },
    }
}

pub open spec fn upload_error(p: BufProxy, data: Seq<u8>, next_id: u64) -> Option<
    ResolveErrorKind,
> {
    if p.id >= next_id {
        Some(ResolveErrorKind::UnknownProxy)
    } else if data.len() != p.size {
        Some(ResolveErrorKind::SizeMismatch)
    } else {
        None
    }
}

fn check_bindings(b: &Vec<ResourceProxy>, layout: &Vec<BindType>, next_id: u64) -> (r: Option<
    ResolveErrorKind,
>)
    ensures
        r == (if !all_declared(b@, next_id) {
            Some(ResolveErrorKind::UnknownProxy)
        } else if !bindings_fit(b@, layout@) {
            Some(ResolveErrorKind::BindingMismatch)
        } else {
            None::<ResolveErrorKind>
        }),
{
    let mut j: usize = 0;
    while j < b.len()
        invariant
            j <= b@.len(),
            forall|k: int| 0 <= k < j ==> (#[trigger] b@[k]).id() < next_id,
        decreases b@.len() - j,
    {
        let id = match b[j] {
            ResourceProxy::Buf(p) => p.id,
            ResourceProxy::Image(p) => p.id,
        };
        if id >= next_id {
            assert(b@[j as int].id() >= next_id);
            return Some(ResolveErrorKind::UnknownProxy);
        }
        j = j + 1;
    }
    assert(all_declared(b@, next_id));
    if b.len() != layout.len() {
        return Some(ResolveErrorKind::BindingMismatch);
    }
    let mut j: usize = 0;
    while j < b.len()
        invariant
            j <= b@.len(),
            b@.len() == layout@.len(),
            all_declared(b@, next_id),
            forall|k: int| 0 <= k < j ==> binding_fits(#[trigger] b@[k], layout@[k]),
        decreases b@.len() - j,
    {
        let fits = match (b[j], layout[j]) {
            (ResourceProxy::Buf(_), BindType::Uniform) => true,
            (ResourceProxy::Buf(_), BindType::BufReadOnly) => true,
            (ResourceProxy::Buf(_), BindType::Buffer) => true,
            (ResourceProxy::Image(i), BindType::Image(f)) => i.format == f,
            _ => false,
        };
        if !fits {
            assert(!binding_fits(b@[j as int], layout@[j as int]));
            return Some(ResolveErrorKind::BindingMismatch);
        }
        j = j + 1;
    }
    None
}

impl Recording {
    /// The operations, in recorded order.
    pub open spec fn ops(&self) -> Seq<Op> {
        self.commands@.map_values(|c: Command| c@)
    }

    /// The label of each proxy, by id.
    pub open spec fn label_views(&self) -> Seq<Seq<char>> {
        self.labels@.map_values(|l: String| l@)
    }

    /// Well formed: one label per proxy handed out.
    pub open spec fn wf(&self) -> bool {
        self.labels@.len() == self.next_id
    }

    pub fn new() -> (r: Recording)
        ensures
            r.wf(),
            r.commands@.len() == 0,
            r.ops() == Seq::<Op>::empty(),
            r.label_views() == Seq::<Seq<char>>::empty(),
            r.next_id == 0,
    {
        let r = Recording { commands: Vec::new(), labels: Vec::new(), next_id: 0 };
        assert(r.ops() =~= Seq::<Op>::empty());
        assert(r.label_views() =~= Seq::<Seq<char>>::empty());
        r
    }

    fn next_proxy_id(&mut self, label: &str) -> (id: u64)
        requires
            old(self).wf(),
            old(self).next_id < u64::MAX,
        ensures
            final(self).wf(),
            id == old(self).next_id,
            final(self).next_id == old(self).next_id + 1,
            final(self).commands == old(self).commands,
            final(self).label_views() == old(self).label_views().push(label@),
    {
        let id = self.next_id;
        self.labels.push(label.to_owned());
        self.next_id = id + 1;
        assert(self.label_views() =~= old(self).label_views().push(label@));
        id
    }

    /// A new buffer proxy of `size` bytes; nothing is recorded.
    pub fn create_buffer(&mut self, label: &str, size: u64) -> (p: BufProxy)
        requires
            old(self).wf(),
            old(self).next_id < u64::MAX,
        ensures
            final(self).wf(),
            p == (BufProxy { size, id: old(self).next_id }),
            final(self).next_id == old(self).next_id + 1,
            final(self).commands == old(self).commands,
            final(self).label_views() == old(self).label_views().push(label@),
    {
        let id = self.next_proxy_id(label);
        BufProxy { size, id }
    }

    /// A new image proxy; nothing is recorded.
    pub fn create_image(&mut self, label: &str, width: u32, height: u32, format: ImageFormat) -> (p:
        ImageProxy)
        requires
            old(self).wf(),
            old(self).next_id < u64::MAX,
        ensures
            final(self).wf(),
            p == (ImageProxy { width, height, format, id: old(self).next_id }),
            final(self).next_id == old(self).next_id + 1,
            final(self).commands == old(self).commands,
            final(self).label_views() == old(self).label_views().push(label@),
    {
        let id = self.next_proxy_id(label);
        ImageProxy { width, height, format, id }
    }

    /// A new buffer proxy holding `data`.
    pub fn upload(&mut self, label: &str, data: Vec<u8>) -> (p: BufProxy)
        requires
            old(self).wf(),
            old(self).next_id < u64::MAX,
        ensures
            final(self).wf(),
            p == (BufProxy { size: data@.len() as u64, id: old(self).next_id }),
            final(self).next_id == old(self).next_id + 1,
            final(self).ops() == old(self).ops().push(Op::Upload(p, data@)),
            final(self).label_views() == old(self).label_views().push(label@),
    {
        let ghost d = data@;
        let p = self.create_buffer(label, data.len() as u64);
        self.commands.push(Command::Upload(p, data));
        assert(self.ops() =~= old(self).ops().push(Op::Upload(p, d)));
        p
    }

    /// A new buffer proxy holding `data`, read as configuration.
    pub fn upload_uniform(&mut self, label: &str, data: Vec<u8>) -> (p: BufProxy)
        requires
            old(self).wf(),
            old(self).next_id < u64::MAX,
        ensures
            final(self).wf(),
            p == (BufProxy { size: data@.len() as u64, id: old(self).next_id }),
            final(self).next_id == old(self).next_id + 1,
            final(self).ops() == old(self).ops().push(Op::UploadUniform(p, data@)),
            final(self).label_views() == old(self).label_views().push(label@),
    {
        let ghost d = data@;
        let p = self.create_buffer(label, data.len() as u64);
        self.commands.push(Command::UploadUniform(p, data));
        assert(self.ops() =~= old(self).ops().push(Op::UploadUniform(p, d)));
        p
    }

    /// Appends a dispatch of `shader` over `wg_size` workgroups.
    pub fn dispatch(
        &mut self,
        shader: ShaderId,
        wg_size: (u32, u32, u32),
        resources: Vec<ResourceProxy>,
    )
        ensures
            final(self).next_id == old(self).next_id,
            final(self).labels == old(self).labels,
            final(self).ops() == old(self).ops().push(Op::Dispatch(shader, wg_size, resources@)),
    {
        let ghost r = resources@;
        self.commands.push(Command::Dispatch(shader, wg_size, resources));
        assert(self.ops() =~= old(self).ops().push(Op::Dispatch(shader, wg_size, r)));
    }

    /// Appends a zero-fill of `buf`.
    pub fn clear_all(&mut self, buf: BufProxy)
        ensures
            final(self).next_id == old(self).next_id,
            final(self).labels == old(self).labels,
            final(self).ops() == old(self).ops().push(Op::Clear(buf)),
    {
        self.commands.push(Command::Clear(buf));
        assert(self.ops() =~= old(self).ops().push(Op::Clear(buf)));
    }

    /// Checks every operation against the registry, in order; the error
    /// names the first one that cannot be resolved.
    pub fn validate(&self, registry: &ShaderRegistry) -> (r: Result<(), ResolveError>)
        ensures
            r is Ok <==> forall|k: int|
                0 <= k < self.commands@.len() ==> command_error(
                    #[trigger] self.commands@[k],
                    registry.layouts(),
                    self.next_id,
                ) is None,
            r matches Err(e) ==> {
                &&& e.command < self.commands@.len()
                &&& command_error(self.commands@[e.command as int], registry.layouts(), self.next_id)
                    == Some(e.kind)
                &&& forall|k: int|
                    0 <= k < e.command ==> command_error(
                        #[trigger] self.commands@[k],
                        registry.layouts(),
                        self.next_id,
                    ) is None
            },
    {
        let mut k: usize = 0;
        while k < self.commands.len()
            invariant
                k <= self.commands@.len(),
                forall|m: int|
                    0 <= m < k ==> command_error(
                        #[trigger] self.commands@[m],
                        registry.layouts(),
                        self.next_id,
                    ) is None,
            decreases self.commands@.len() - k,
        {
            let err = match &self.commands[k] {
                Command::Upload(p, data) => upload_check(*p, data, self.next_id),
                Command::UploadUniform(p, data) => upload_check(*p, data, self.next_id),
                Command::Clear(p) => if p.id < self.next_id {
                    None
                } else {
                    Some(ResolveErrorKind::UnknownProxy)
                },
                Command::Dispatch(shader, _, b) => match registry.layout(*shader) {
                    None => Some(ResolveErrorKind::UnknownShader),
                    Some(layout) => check_bindings(b, layout, self.next_id),
                },
            };
            if let Some(kind) = err {
                return Err(ResolveError { command: k, kind });
            }
            k = k + 1;
        }
        Ok(())
    }
}

fn upload_check(p: BufProxy, data: &Vec<u8>, next_id: u64) -> (r: Option<ResolveErrorKind>)
    ensures
        r == upload_error(p, data@, next_id),
{
    if p.id >= next_id {
        Some(ResolveErrorKind::UnknownProxy)
    } else if data.len() as u64 != p.size {
        Some(ResolveErrorKind::SizeMismatch)
    } else {
        None
    }
}

} // verus!
