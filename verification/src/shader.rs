//! Shader programs: compiling and linking them from source, and caching the
//! locations of their uniform variables.
use vstd::prelude::*;

use crate::command::{
    GlCommand, GlReply, GL_COMPILE_STATUS, GL_FRAGMENT_SHADER, GL_LINK_STATUS, GL_VERTEX_SHADER,
    INFO_LOG_CAPACITY,
};

verus! {

/// The two programmable stages a program is built from.
#[allow(non_camel_case_types)]
#[derive(Clone, Copy, Debug, PartialEq, Eq, Structural)]
pub enum ShaderType {
    VERTEX,
    FRAGMENT,
}

impl ShaderType {
    /// The GL enum that names this stage.
    pub open spec fn spec_gl_value(&self) -> u32 {
        match self {
            ShaderType::VERTEX => GL_VERTEX_SHADER,
            ShaderType::FRAGMENT => GL_FRAGMENT_SHADER,
        }
    }

    /// The GL enum that names this stage: `GL_VERTEX_SHADER` (0x8B31) or
    /// `GL_FRAGMENT_SHADER` (0x8B30).
    pub fn get_gl_value(&self) -> (value: u32)
        ensures
            value == self.spec_gl_value(),
    {
        match self {
            ShaderType::VERTEX => 0x8B31,
            ShaderType::FRAGMENT => 0x8B30,
        }
    }
}

/// The map from names to values that a list of `(name, value)` entries
/// describes, later entries winning.
pub open spec fn entries_view(entries: Seq<(String, i32)>) -> Map<Seq<char>, i32>
    decreases entries.len(),
{
    if entries.len() == 0 {
        Map::empty()
    } else {
        entries_view(entries.drop_last()).insert(entries.last().0@, entries.last().1)
    }
}

/// No name occurs twice among the entries.
pub open spec fn entries_distinct(entries: Seq<(String, i32)>) -> bool {
    forall|i: int, j: int|
        0 <= i < j < entries.len() ==> #[trigger] entries[i].0@ != #[trigger] entries[j].0@
}

proof fn lemma_entries_view(entries: Seq<(String, i32)>)
    requires
        entries_distinct(entries),
    ensures
        forall|k: Seq<char>|
            #[trigger] entries_view(entries).contains_key(k) <==> exists|j: int|
                0 <= j < entries.len() && entries[j].0@ == k,
        forall|j: int|
            0 <= j < entries.len() ==> #[trigger] entries_view(entries)[entries[j].0@]
                == entries[j].1,
    decreases entries.len(),
{
    if entries.len() > 0 {
        let rest = entries.drop_last();
        lemma_entries_view(rest);
        assert forall|k: Seq<char>|
            #[trigger] entries_view(entries).contains_key(k) implies exists|j: int|
                0 <= j < entries.len() && entries[j].0@ == k by {
            if k != entries.last().0@ {
                assert(entries_view(rest).contains_key(k));
                let j = choose|j: int| 0 <= j < rest.len() && rest[j].0@ == k;
                assert(entries[j].0@ == k);
            } else {
                assert(entries[entries.len() - 1].0@ == k);
            }
        }
        assert forall|j: int| 0 <= j < entries.len() implies #[trigger] entries_view(
            entries,
        )[entries[j].0@] == entries[j].1 by {
            if j < entries.len() - 1 {
                assert(rest[j] == entries[j]);
                assert(entries[j].0@ != entries[entries.len() - 1].0@);
                assert(entries_view(rest)[rest[j].0@] == rest[j].1);
            }
        }
        assert forall|k: Seq<char>|
            (exists|j: int| 0 <= j < entries.len() && entries[j].0@ == k) implies
            #[trigger] entries_view(entries).contains_key(k) by {
            let j = choose|j: int| 0 <= j < entries.len() && entries[j].0@ == k;
            if j < entries.len() - 1 {
                assert(rest[j] == entries[j]);
                assert(entries_view(rest).contains_key(k));
            }
        }
    }
}

/// Locations of uniform variables, by name, as far as they are known.
#[derive(Debug)]
pub struct UniformCache {
    entries: Vec<(String, i32)>,
}

impl View for UniformCache {
    type V = Map<Seq<char>, i32>;

    closed spec fn view(&self) -> Map<Seq<char>, i32> {
        entries_view(self.entries@)
    }
}

impl UniformCache {
    /// Each name is stored once.
    #[verifier::type_invariant]
    spec fn names_distinct(&self) -> bool {
        entries_distinct(self.entries@)
    }

    /// A cache that knows no location.
    pub fn new() -> (cache: Self)
        ensures
            cache@ == Map::<Seq<char>, i32>::empty(),
    {
        UniformCache { entries: Vec::new() }
    }

    /// Position of `name` among `entries`, if it is there.
    fn position(entries: &Vec<(String, i32)>, name: &String) -> (pos: Option<usize>)
        ensures
            match pos {
                Some(i) => i < entries.len() && entries@[i as int].0@ == name@,
                None => forall|j: int|
                    0 <= j < entries.len() ==> #[trigger] entries@[j].0@ != name@,
            },
    {
        let mut i: usize = 0;
        while i < entries.len()
            invariant
                0 <= i <= entries.len(),
                forall|j: int| 0 <= j < i ==> #[trigger] entries@[j].0@ != name@,
            decreases entries.len() - i,
        {
            if entries[i].0 == *name {
                return Some(i);
            }
            i = i + 1;
        }
        None
    }

    /// The location stored for `name`, if one is.
    pub fn get(&self, name: &str) -> (location: Option<i32>)
        ensures
            location == (if self@.contains_key(name@) {
                Some(self@[name@])
            } else {
                None::<i32>
            }),
    {
        proof {
            use_type_invariant(self);
            lemma_entries_view(self.entries@);
        }
        let key: String = name.to_owned();
        match Self::position(&self.entries, &key) {
            Some(i) => Some(self.entries[i].1),
            None => None,
        }
    }

    /// Stores `location` for `name`, replacing what was stored for it.
    pub fn insert(&mut self, name: &str, location: i32)
        ensures
            final(self)@ == old(self)@.insert(name@, location),
    {
        proof {
            use_type_invariant(&*self);
        }
        let key: String = name.to_owned();
        let mut entries: Vec<(String, i32)> = Vec::new();
        std::mem::swap(&mut entries, &mut self.entries);
        let ghost old_entries = entries@;
        let ghost target = entries_view(old_entries).insert(name@, location);
        proof {
            lemma_entries_view(old_entries);
        }
        match Self::position(&entries, &key) {
            Some(i) => {
                entries.set(i, (key, location));
                proof {
                    assert forall|a: int, b: int|
                        0 <= a < b < entries.len() implies #[trigger] entries@[a].0@
                        != #[trigger] entries@[b].0@ by {
                        assert(old_entries[a].0@ != old_entries[b].0@);
                    }
                    lemma_entries_view(entries@);
                    assert forall|k: Seq<char>| #[trigger]
                        target.contains_key(k) implies entries_view(entries@).contains_key(k) by {
                        if k != name@ {
                            assert(entries_view(old_entries).contains_key(k));
                            let j = choose|j: int|
                                0 <= j < old_entries.len() && old_entries[j].0@ == k;
                            assert(entries@[j].0@ == k);
                        } else {
                            assert(entries@[i as int].0@ == k);
                        }
                    }
                    assert forall|k: Seq<char>| #[trigger]
                        entries_view(entries@).contains_key(k) implies target.contains_key(k)
                        && target[k] == entries_view(entries@)[k] by {
                        let j = choose|j: int| 0 <= j < entries.len() && entries@[j].0@ == k;
                        if j != i {
                            assert(old_entries[j] == entries@[j]);
                            assert(entries_view(old_entries)[k] == old_entries[j].1);
                        }
                    }
                    assert(entries_view(entries@) =~= target);
                }
            },
            None => {
                entries.push((key, location));
                proof {
                    assert(entries@.drop_last() =~= old_entries);
                }
            },
        }
        self.entries = entries;
    }
}

/// Where the building of a program from a vertex and a fragment shader
/// stands, and what reply it waits for.
#[derive(Debug)]
pub enum LoadStage {
    /// Waits for the name of the new vertex shader.
    CreatingVertex,
    /// Waits for the compile status of the vertex shader.
    CompilingVertex { vertex: u32 },
    /// The vertex shader did not compile; waits for its info log.
    ReadingVertexLog { vertex: u32 },
    /// Waits for the name of the new fragment shader.
    CreatingFragment { vertex: u32 },
    /// Waits for the compile status of the fragment shader.
    CompilingFragment { vertex: u32, fragment: u32 },
    /// The fragment shader did not compile; waits for its info log.
    ReadingFragmentLog { vertex: u32, fragment: u32 },
    /// Waits for the name of the new program.
    CreatingProgram { vertex: u32, fragment: u32 },
    /// Waits for the link status of the program.
    Linking { vertex: u32, fragment: u32, program: u32 },
    /// The program did not link; waits for its info log.
    ReadingProgramLog { vertex: u32, fragment: u32, program: u32 },
    /// The program linked and its shaders were deleted.
    Loaded { program: u32 },
    /// A stage failed; `log` is the info log that says why.
    Failed { log: String },
}

/// Which reply `stage` waits for; a finished stage accepts none.
pub open spec fn accepts(stage: LoadStage, reply: GlReply) -> bool {
    match stage {
        LoadStage::CreatingVertex => reply is Name,
        LoadStage::CreatingFragment { .. } => reply is Name,
        LoadStage::CreatingProgram { .. } => reply is Name,
        LoadStage::CompilingVertex { .. } => reply is Status,
        LoadStage::CompilingFragment { .. } => reply is Status,
        LoadStage::Linking { .. } => reply is Status,
        LoadStage::ReadingVertexLog { .. } => reply is Log,
        LoadStage::ReadingFragmentLog { .. } => reply is Log,
        LoadStage::ReadingProgramLog { .. } => reply is Log,
        LoadStage::Loaded { .. } => false,
        LoadStage::Failed { .. } => false,
    }
}

/// The load has ended, well or badly.
pub open spec fn finished(stage: LoadStage) -> bool {
    stage is Loaded || stage is Failed
}

/// The stage that follows `stage` once `reply` comes in. A status of zero
/// means failure and leads to reading the info log, whose text ends the load.
pub open spec fn next_stage(stage: LoadStage, reply: GlReply) -> LoadStage {
    match (stage, reply) {
        (LoadStage::CreatingVertex, GlReply::Name(v)) => LoadStage::CompilingVertex { vertex: v },
        (LoadStage::CompilingVertex { vertex }, GlReply::Status(s)) => if s == 0 {
            LoadStage::ReadingVertexLog { vertex }
        } else {
            LoadStage::CreatingFragment { vertex }
        },
        (LoadStage::ReadingVertexLog { .. }, GlReply::Log(log)) => LoadStage::Failed { log },
        (LoadStage::CreatingFragment { vertex }, GlReply::Name(f)) => LoadStage::CompilingFragment {
            vertex,
            fragment: f,
        },
        (LoadStage::CompilingFragment { vertex, fragment }, GlReply::Status(s)) => if s == 0 {
            LoadStage::ReadingFragmentLog { vertex, fragment }
        } else {
            LoadStage::CreatingProgram { vertex, fragment }
        },
        (LoadStage::ReadingFragmentLog { .. }, GlReply::Log(log)) => LoadStage::Failed { log },
        (LoadStage::CreatingProgram { vertex, fragment }, GlReply::Name(p)) => LoadStage::Linking {
            vertex,
            fragment,
            program: p,
        },
        (LoadStage::Linking { vertex, fragment, program }, GlReply::Status(s)) => if s == 0 {
            LoadStage::ReadingProgramLog { vertex, fragment, program }
        } else {
            LoadStage::Loaded { program }
        },
        (LoadStage::ReadingProgramLog { .. }, GlReply::Log(log)) => LoadStage::Failed { log },
        (other, _) => other,
    }
}

/// How many replies a stage can still wait for, at most.
pub open spec fn stage_rank(stage: LoadStage) -> nat {
    match stage {
        LoadStage::CreatingVertex => 9,
        LoadStage::CompilingVertex { .. } => 8,
        LoadStage::CreatingFragment { .. } => 7,
        LoadStage::CompilingFragment { .. } => 6,
        LoadStage::CreatingProgram { .. } => 5,
        LoadStage::Linking { .. } => 4,
        LoadStage::ReadingVertexLog { .. } => 1,
        LoadStage::ReadingFragmentLog { .. } => 1,
        LoadStage::ReadingProgramLog { .. } => 1,
        LoadStage::Loaded { .. } => 0,
        LoadStage::Failed { .. } => 0,
    }
}

/// The building of a program from the two shader sources.
#[derive(Debug)]
pub struct ShaderLoad {
    pub vertex_source: String,
    pub fragment_source: String,
    pub stage: LoadStage,
}

/// The load of `vertex_source` and `fragment_source` before any reply.
pub open spec fn load_start(vertex_source: String, fragment_source: String) -> ShaderLoad {
    ShaderLoad { vertex_source, fragment_source, stage: LoadStage::CreatingVertex }
}

/// The calls that begin a load: create the vertex shader.
pub open spec fn load_start_commands() -> Seq<GlCommand> {
    seq![GlCommand::CreateShader { kind: ShaderType::VERTEX.spec_gl_value() }]
}

/// The calls a load makes when `reply` comes in.
pub open spec fn step_commands(load: ShaderLoad, reply: GlReply) -> Seq<GlCommand> {
    match (load.stage, reply) {
        (LoadStage::CreatingVertex, GlReply::Name(v)) => seq![
            GlCommand::ShaderSource { shader: v, source: load.vertex_source },
            GlCommand::CompileShader { shader: v },
            GlCommand::GetShaderiv { shader: v, pname: GL_COMPILE_STATUS },
        ],
        (LoadStage::CompilingVertex { vertex }, GlReply::Status(s)) => if s == 0 {
            seq![GlCommand::GetShaderInfoLog { shader: vertex, max_length: INFO_LOG_CAPACITY }]
        } else {
            seq![GlCommand::CreateShader { kind: ShaderType::FRAGMENT.spec_gl_value() }]
        },
        (LoadStage::CreatingFragment { .. }, GlReply::Name(f)) => seq![
            GlCommand::ShaderSource { shader: f, source: load.fragment_source },
            GlCommand::CompileShader { shader: f },
            GlCommand::GetShaderiv { shader: f, pname: GL_COMPILE_STATUS },
        ],
        (LoadStage::CompilingFragment { fragment, .. }, GlReply::Status(s)) => if s == 0 {
            seq![GlCommand::GetShaderInfoLog { shader: fragment, max_length: INFO_LOG_CAPACITY }]
        } else {
            seq![GlCommand::CreateProgram]
        },
        (LoadStage::CreatingProgram { vertex, fragment }, GlReply::Name(p)) => seq![
            GlCommand::AttachShader { program: p, shader: vertex },
            GlCommand::AttachShader { program: p, shader: fragment },
            GlCommand::LinkProgram { program: p },
            GlCommand::GetProgramiv { program: p, pname: GL_LINK_STATUS },
        ],
        (LoadStage::Linking { vertex, fragment, program }, GlReply::Status(s)) => if s == 0 {
            seq![GlCommand::GetProgramInfoLog { program, max_length: INFO_LOG_CAPACITY }]
        } else {
            seq![
                GlCommand::DeleteShader { shader: vertex },
                GlCommand::DeleteShader { shader: fragment },
            ]
        },
        _ => Seq::empty(),
    }
}

/// The load after `reply` came in.
pub open spec fn advance(load: ShaderLoad, reply: GlReply) -> ShaderLoad {
    ShaderLoad {
        vertex_source: load.vertex_source,
        fragment_source: load.fragment_source,
        stage: next_stage(load.stage, reply),
    }
}

/// The load after the replies from index `i` of `replies` on, one by one.
pub open spec fn run_from(load: ShaderLoad, replies: Seq<GlReply>, i: int) -> ShaderLoad
    decreases replies.len() - i,
{
    if i < 0 || i >= replies.len() {
        load
    } else {
        run_from(advance(load, replies[i]), replies, i + 1)
    }
}

/// The load after the replies `replies`, one by one.
pub open spec fn run(load: ShaderLoad, replies: Seq<GlReply>) -> ShaderLoad {
    run_from(load, replies, 0)
}

/// Text holds a NUL character; GL takes shader sources and uniform names as
/// NUL-terminated strings, so such text cannot be handed to it.
pub open spec fn has_nul(text: Seq<char>) -> bool {
    text.contains('\0')
}

/// The source that the next step hands to GL, if any, can be handed over:
/// the vertex source when the vertex shader has just been created, the
/// fragment source when the fragment shader has.
pub open spec fn source_ready(load: ShaderLoad) -> bool {
    match load.stage {
        LoadStage::CreatingVertex => !has_nul(load.vertex_source@),
        LoadStage::CreatingFragment { .. } => !has_nul(load.fragment_source@),
        _ => true,
    }
}

/// Each reply from index `i` of `replies` on is the one the load waits for
/// when it comes in, and the load can go on with it.
pub open spec fn run_accepted_from(load: ShaderLoad, replies: Seq<GlReply>, i: int) -> bool
    decreases replies.len() - i,
{
    i < 0 || i >= replies.len() || (accepts(load.stage, replies[i]) && source_ready(load)
        && run_accepted_from(advance(load, replies[i]), replies, i + 1))
}

/// Each of `replies` is the one the load waits for when it comes in, and the
/// load can go on with it.
pub open spec fn run_accepted(load: ShaderLoad, replies: Seq<GlReply>) -> bool {
    run_accepted_from(load, replies, 0)
}

/// All the calls the load makes while the replies from index `i` of
/// `replies` on come in, in order.
pub open spec fn run_commands_from(load: ShaderLoad, replies: Seq<GlReply>, i: int) -> Seq<
    GlCommand,
>
    decreases replies.len() - i,
{
    if i < 0 || i >= replies.len() {
        Seq::empty()
    } else {
        step_commands(load, replies[i]) + run_commands_from(advance(load, replies[i]), replies, i + 1)
    }
}

/// All the calls the load makes while `replies` come in, in order.
pub open spec fn run_commands(load: ShaderLoad, replies: Seq<GlReply>) -> Seq<GlCommand> {
    run_commands_from(load, replies, 0)
}

impl ShaderLoad {
    /// Whether `reply` is the reply this load waits for.
    pub fn accepts(&self, reply: &GlReply) -> (ok: bool)
        ensures
            ok == accepts(self.stage, *reply),
    {
        match (&self.stage, reply) {
            (LoadStage::CreatingVertex, GlReply::Name(_)) => true,
            (LoadStage::CreatingFragment { .. }, GlReply::Name(_)) => true,
            (LoadStage::CreatingProgram { .. }, GlReply::Name(_)) => true,
            (LoadStage::CompilingVertex { .. }, GlReply::Status(_)) => true,
            (LoadStage::CompilingFragment { .. }, GlReply::Status(_)) => true,
            (LoadStage::Linking { .. }, GlReply::Status(_)) => true,
            (LoadStage::ReadingVertexLog { .. }, GlReply::Log(_)) => true,
            (LoadStage::ReadingFragmentLog { .. }, GlReply::Log(_)) => true,
            (LoadStage::ReadingProgramLog { .. }, GlReply::Log(_)) => true,
            _ => false,
        }
    }

    /// Whether the load has ended.
    pub fn is_finished(&self) -> (done: bool)
        ensures
            done == finished(self.stage),
    {
        match &self.stage {
            LoadStage::Loaded { .. } => true,
            LoadStage::Failed { .. } => true,
            _ => false,
        }
    }

    /// Takes in the reply the load waits for, moves to the next stage, and
    /// returns the calls to make next. A source that holds a NUL character
    /// cannot be handed to GL, so the step that would hand it over is not
    /// taken.
    pub fn step(&mut self, reply: GlReply) -> (cmds: Vec<GlCommand>)
        requires
            accepts(old(self).stage, reply),
            source_ready(*old(self)),
        ensures
            *final(self) == advance(*old(self), reply),
            cmds@ == step_commands(*old(self), reply),
    {
        let mut cmds: Vec<GlCommand> = Vec::new();
        let next = match (&self.stage, reply) {
            (LoadStage::CreatingVertex, GlReply::Name(v)) => {
                cmds.push(GlCommand::ShaderSource { shader: v, source: self.vertex_source.clone() });
                cmds.push(GlCommand::CompileShader { shader: v });
                cmds.push(GlCommand::GetShaderiv { shader: v, pname: GL_COMPILE_STATUS });
                LoadStage::CompilingVertex { vertex: v }
            },
            (LoadStage::CompilingVertex { vertex }, GlReply::Status(s)) => {
                if s == 0 {
                    cmds.push(
                        GlCommand::GetShaderInfoLog { shader: *vertex, max_length: INFO_LOG_CAPACITY },
                    );
                    LoadStage::ReadingVertexLog { vertex: *vertex }
                } else {
                    cmds.push(GlCommand::CreateShader { kind: ShaderType::FRAGMENT.get_gl_value() });
                    LoadStage::CreatingFragment { vertex: *vertex }
                }
            },
            (LoadStage::ReadingVertexLog { .. }, GlReply::Log(log)) => LoadStage::Failed { log },
            (LoadStage::CreatingFragment { vertex }, GlReply::Name(f)) => {
                cmds.push(
                    GlCommand::ShaderSource { shader: f, source: self.fragment_source.clone() },
                );
                cmds.push(GlCommand::CompileShader { shader: f });
                cmds.push(GlCommand::GetShaderiv { shader: f, pname: GL_COMPILE_STATUS });
                LoadStage::CompilingFragment { vertex: *vertex, fragment: f }
            },
            (LoadStage::CompilingFragment { vertex, fragment }, GlReply::Status(s)) => {
                if s == 0 {
                    cmds.push(
                        GlCommand::GetShaderInfoLog {
                            shader: *fragment,
                            max_length: INFO_LOG_CAPACITY,
                        },
                    );
                    LoadStage::ReadingFragmentLog { vertex: *vertex, fragment: *fragment }
                } else {
                    cmds.push(GlCommand::CreateProgram);
                    LoadStage::CreatingProgram { vertex: *vertex, fragment: *fragment }
                }
            },
            (LoadStage::ReadingFragmentLog { .. }, GlReply::Log(log)) => LoadStage::Failed { log },
            (LoadStage::CreatingProgram { vertex, fragment }, GlReply::Name(p)) => {
                cmds.push(GlCommand::AttachShader { program: p, shader: *vertex });
                cmds.push(GlCommand::AttachShader { program: p, shader: *fragment });
                cmds.push(GlCommand::LinkProgram { program: p });
                cmds.push(GlCommand::GetProgramiv { program: p, pname: GL_LINK_STATUS });
                LoadStage::Linking { vertex: *vertex, fragment: *fragment, program: p }
            },
            (LoadStage::Linking { vertex, fragment, program }, GlReply::Status(s)) => {
                if s == 0 {
                    cmds.push(
                        GlCommand::GetProgramInfoLog {
                            program: *program,
                            max_length: INFO_LOG_CAPACITY,
                        },
                    );
                    LoadStage::ReadingProgramLog {
                        vertex: *vertex,
                        fragment: *fragment,
                        program: *program,
                    }
                } else {
                    cmds.push(GlCommand::DeleteShader { shader: *vertex });
                    cmds.push(GlCommand::DeleteShader { shader: *fragment });
                    LoadStage::Loaded { program: *program }
                }
            },
            (LoadStage::ReadingProgramLog { .. }, GlReply::Log(log)) => LoadStage::Failed { log },
            _ => {
                proof {
                    assert(false);
                }
                LoadStage::CreatingVertex
            },
        };
        self.stage = next;
        cmds
    }
}

/// The location `shader` knows for the uniform `name`, if it knows one.
pub open spec fn cached_location(shader: Shader, name: Seq<char>) -> Option<i32> {
    if shader.uniforms_location@.contains_key(name) {
        Some(shader.uniforms_location@[name])
    } else {
        None
    }
}

/// What looking up the location of a uniform variable comes to.
#[derive(Debug)]
pub enum UniformLookup {
    /// The location is known already.
    Cached(i32),
    /// The location is not known: this call asks GL for it, and its answer
    /// goes to [`Shader::record_uniform_location`].
    Query(GlCommand),
}

/// A shader program, by its GL name (0 while none is loaded), with the
/// locations of its uniforms found so far.
#[derive(Debug)]
pub struct Shader {
    pub program: u32,
    pub uniforms_location: UniformCache,
}

impl Shader {
    /// No program yet, and no uniform location known.
    pub fn new() -> (shader: Self)
        ensures
            shader.program == 0,
            shader.uniforms_location@ == Map::<Seq<char>, i32>::empty(),
    {
        Shader { program: 0, uniforms_location: UniformCache::new() }
    }

    /// Makes this program the current one.
    pub fn bind(&self) -> (cmd: GlCommand)
        ensures
            cmd == (GlCommand::UseProgram { program: self.program }),
    {
        GlCommand::UseProgram { program: self.program }
    }

    /// Leaves no program current.
    pub fn unbind(&self) -> (cmd: GlCommand)
        ensures
            cmd == (GlCommand::UseProgram { program: 0 }),
    {
        GlCommand::UseProgram { program: 0 }
    }

    /// Deletes this program.
    pub fn release(&self) -> (cmd: GlCommand)
        ensures
            cmd == (GlCommand::DeleteProgram { program: self.program }),
    {
        GlCommand::DeleteProgram { program: self.program }
    }

    /// Starts building a program from the two shader sources: the returned
    /// load waits for the name of the vertex shader that the returned call
    /// creates. Feed it the replies with [`ShaderLoad::step`] and hand the
    /// finished load to [`Shader::finish_load`].
    pub fn load_from_memory(&self, vertex_shader: &str, fragment_shader: &str) -> (started: (
        ShaderLoad,
        Vec<GlCommand>,
    ))
        requires
            !has_nul(vertex_shader@),
        ensures
            started.0.vertex_source@ == vertex_shader@,
            started.0.fragment_source@ == fragment_shader@,
            started.0 == load_start(started.0.vertex_source, started.0.fragment_source),
            started.1@ == load_start_commands(),
    {
        let load = ShaderLoad {
            vertex_source: vertex_shader.to_owned(),
            fragment_source: fragment_shader.to_owned(),
            stage: LoadStage::CreatingVertex,
        };
        let mut cmds: Vec<GlCommand> = Vec::new();
        cmds.push(GlCommand::CreateShader { kind: ShaderType::VERTEX.get_gl_value() });
        (load, cmds)
    }

    /// Ends a load: a linked program becomes this shader's program and the
    /// result is `Ok`; a failed load leaves the program as it was and gives
    /// back the info log that says why. Known uniform locations are kept.
    pub fn finish_load(&mut self, load: ShaderLoad) -> (result: Result<(), String>)
        requires
            finished(load.stage),
        ensures
            final(self).uniforms_location == old(self).uniforms_location,
            match load.stage {
                LoadStage::Loaded { program } => result is Ok && final(self).program == program,
                LoadStage::Failed { log } => {
                    &&& result == Err::<(), String>(log)
                    &&& final(self).program == old(self).program
                },
                _ => false,
            },
    {
        match load.stage {
            LoadStage::Loaded { program } => {
                self.program = program;
                Ok(())
            },
            LoadStage::Failed { log } => Err(log),
            _ => {
                proof {
                    assert(false);
                }
                Ok(())
            },
        }
    }

    /// The location of the uniform `name`: known when it was recorded before,
    /// else the query that asks GL for it in this program. A name that is not
    /// known and holds a NUL character cannot be asked for.
    pub fn get_uniform_locacion(&self, name: &str) -> (lookup: UniformLookup)
        requires
            cached_location(*self, name@) is Some || !has_nul(name@),
        ensures
            cached_location(*self, name@) matches Some(location) ==> lookup
                == UniformLookup::Cached(location),
            cached_location(*self, name@) is None ==> (lookup matches UniformLookup::Query(
                GlCommand::GetUniformLocation { program, name: queried },
            ) && program == self.program && queried@ == name@),
    {
        match self.uniforms_location.get(name) {
            Some(location) => UniformLookup::Cached(location),
            None => UniformLookup::Query(
                GlCommand::GetUniformLocation { program: self.program, name: name.to_owned() },
            ),
        }
    }

    /// Remembers that the uniform `name` is at `location`, and returns it.
    pub fn record_uniform_location(&mut self, name: &str, location: i32) -> (result: i32)
        ensures
            result == location,
            final(self).program == old(self).program,
            final(self).uniforms_location@ == old(self).uniforms_location@.insert(name@, location),
    {
        self.uniforms_location.insert(name, location);
        location
    }
}

/// Each accepted reply brings a load closer to its end; a load has ended
/// exactly when its rank is zero, a finished load accepts no reply, and an
/// unfinished one always waits for some reply. So a load ends after at most
/// nine replies.
pub proof fn lemma_load_progress(stage: LoadStage, reply: GlReply)
    ensures
        accepts(stage, reply) ==> stage_rank(next_stage(stage, reply)) < stage_rank(stage),
        finished(stage) <==> stage_rank(stage) == 0,
        finished(stage) ==> !accepts(stage, reply),
        !finished(stage) ==> (accepts(stage, GlReply::Name(0)) || accepts(
            stage,
            GlReply::Status(0),
        ) || forall|log: String| #[trigger] accepts(stage, GlReply::Log(log))),
{
}

/// A load whose two shaders compile and whose program links ends with that
/// program loaded. On the way it creates, sources and compiles the vertex
/// shader, then the fragment shader, attaches both to a new program, links
/// it, and finally deletes both shaders.
pub proof fn lemma_load_succeeds(
    vertex_source: String,
    fragment_source: String,
    vertex: u32,
    fragment: u32,
    program: u32,
    vertex_status: i32,
    fragment_status: i32,
    link_status: i32,
)
    requires
        !has_nul(vertex_source@),
        !has_nul(fragment_source@),
        vertex_status != 0,
        fragment_status != 0,
        link_status != 0,
    ensures
        ({
            let load = load_start(vertex_source, fragment_source);
            let replies = seq![
                GlReply::Name(vertex),
                GlReply::Status(vertex_status),
                GlReply::Name(fragment),
                GlReply::Status(fragment_status),
                GlReply::Name(program),
                GlReply::Status(link_status),
            ];
            &&& run_accepted(load, replies)
            &&& run(load, replies).stage == (LoadStage::Loaded { program })
            &&& load_start_commands() + run_commands(load, replies) == seq![
                GlCommand::CreateShader { kind: GL_VERTEX_SHADER },
                GlCommand::ShaderSource { shader: vertex, source: vertex_source },
                GlCommand::CompileShader { shader: vertex },
                GlCommand::GetShaderiv { shader: vertex, pname: GL_COMPILE_STATUS },
                GlCommand::CreateShader { kind: GL_FRAGMENT_SHADER },
                GlCommand::ShaderSource { shader: fragment, source: fragment_source },
                GlCommand::CompileShader { shader: fragment },
                GlCommand::GetShaderiv { shader: fragment, pname: GL_COMPILE_STATUS },
                GlCommand::CreateProgram,
                GlCommand::AttachShader { program, shader: vertex },
                GlCommand::AttachShader { program, shader: fragment },
                GlCommand::LinkProgram { program },
                GlCommand::GetProgramiv { program, pname: GL_LINK_STATUS },
                GlCommand::DeleteShader { shader: vertex },
                GlCommand::DeleteShader { shader: fragment },
            ]
        }),
{
    reveal_with_fuel(run_from, 7);
    reveal_with_fuel(run_accepted_from, 7);
    reveal_with_fuel(run_commands_from, 7);
    let load = load_start(vertex_source, fragment_source);
    let replies = seq![
        GlReply::Name(vertex),
        GlReply::Status(vertex_status),
        GlReply::Name(fragment),
        GlReply::Status(fragment_status),
        GlReply::Name(program),
        GlReply::Status(link_status),
    ];
    assert(load_start_commands() + run_commands(load, replies) =~= seq![
        GlCommand::CreateShader { kind: GL_VERTEX_SHADER },
        GlCommand::ShaderSource { shader: vertex, source: vertex_source },
        GlCommand::CompileShader { shader: vertex },
        GlCommand::GetShaderiv { shader: vertex, pname: GL_COMPILE_STATUS },
        GlCommand::CreateShader { kind: GL_FRAGMENT_SHADER },
        GlCommand::ShaderSource { shader: fragment, source: fragment_source },
        GlCommand::CompileShader { shader: fragment },
        GlCommand::GetShaderiv { shader: fragment, pname: GL_COMPILE_STATUS },
        GlCommand::CreateProgram,
        GlCommand::AttachShader { program, shader: vertex },
        GlCommand::AttachShader { program, shader: fragment },
        GlCommand::LinkProgram { program },
        GlCommand::GetProgramiv { program, pname: GL_LINK_STATUS },
        GlCommand::DeleteShader { shader: vertex },
        GlCommand::DeleteShader { shader: fragment },
    ]);
}

/// A load whose vertex shader does not compile fails with that shader's
/// info log; it never creates the fragment shader or a program, and deletes
/// nothing.
pub proof fn lemma_load_vertex_fails(
    vertex_source: String,
    fragment_source: String,
    vertex: u32,
    log: String,
)
    requires
        !has_nul(vertex_source@),
    ensures
        ({
            let load = load_start(vertex_source, fragment_source);
            let replies = seq![GlReply::Name(vertex), GlReply::Status(0), GlReply::Log(log)];
            &&& run_accepted(load, replies)
            &&& run(load, replies).stage == (LoadStage::Failed { log })
            &&& load_start_commands() + run_commands(load, replies) == seq![
                GlCommand::CreateShader { kind: GL_VERTEX_SHADER },
                GlCommand::ShaderSource { shader: vertex, source: vertex_source },
                GlCommand::CompileShader { shader: vertex },
                GlCommand::GetShaderiv { shader: vertex, pname: GL_COMPILE_STATUS },
                GlCommand::GetShaderInfoLog { shader: vertex, max_length: INFO_LOG_CAPACITY },
            ]
        }),
{
    reveal_with_fuel(run_from, 4);
    reveal_with_fuel(run_accepted_from, 4);
    reveal_with_fuel(run_commands_from, 4);
    let load = load_start(vertex_source, fragment_source);
    let replies = seq![GlReply::Name(vertex), GlReply::Status(0), GlReply::Log(log)];
    assert(load_start_commands() + run_commands(load, replies) =~= seq![
        GlCommand::CreateShader { kind: GL_VERTEX_SHADER },
        GlCommand::ShaderSource { shader: vertex, source: vertex_source },
        GlCommand::CompileShader { shader: vertex },
        GlCommand::GetShaderiv { shader: vertex, pname: GL_COMPILE_STATUS },
        GlCommand::GetShaderInfoLog { shader: vertex, max_length: INFO_LOG_CAPACITY },
    ]);
}

/// A load whose vertex shader compiles but whose fragment shader does not
/// fails with the fragment shader's info log; it never creates a program and
/// deletes neither shader.
pub proof fn lemma_load_fragment_fails(
    vertex_source: String,
    fragment_source: String,
    vertex: u32,
    fragment: u32,
    vertex_status: i32,
    log: String,
)
    requires
        !has_nul(vertex_source@),
        !has_nul(fragment_source@),
        vertex_status != 0,
    ensures
        ({
            let load = load_start(vertex_source, fragment_source);
            let replies = seq![
                GlReply::Name(vertex),
                GlReply::Status(vertex_status),
                GlReply::Name(fragment),
                GlReply::Status(0),
                GlReply::Log(log),
            ];
            &&& run_accepted(load, replies)
            &&& run(load, replies).stage == (LoadStage::Failed { log })
            &&& load_start_commands() + run_commands(load, replies) == seq![
                GlCommand::CreateShader { kind: GL_VERTEX_SHADER },
                GlCommand::ShaderSource { shader: vertex, source: vertex_source },
                GlCommand::CompileShader { shader: vertex },
                GlCommand::GetShaderiv { shader: vertex, pname: GL_COMPILE_STATUS },
                GlCommand::CreateShader { kind: GL_FRAGMENT_SHADER },
                GlCommand::ShaderSource { shader: fragment, source: fragment_source },
                GlCommand::CompileShader { shader: fragment },
                GlCommand::GetShaderiv { shader: fragment, pname: GL_COMPILE_STATUS },
                GlCommand::GetShaderInfoLog { shader: fragment, max_length: INFO_LOG_CAPACITY },
            ]
        }),
{
    reveal_with_fuel(run_from, 6);
    reveal_with_fuel(run_accepted_from, 6);
    reveal_with_fuel(run_commands_from, 6);
    let load = load_start(vertex_source, fragment_source);
    let replies = seq![
        GlReply::Name(vertex),
        GlReply::Status(vertex_status),
        GlReply::Name(fragment),
        GlReply::Status(0),
        GlReply::Log(log),
    ];
    assert(load_start_commands() + run_commands(load, replies) =~= seq![
        GlCommand::CreateShader { kind: GL_VERTEX_SHADER },
        GlCommand::ShaderSource { shader: vertex, source: vertex_source },
        GlCommand::CompileShader { shader: vertex },
        GlCommand::GetShaderiv { shader: vertex, pname: GL_COMPILE_STATUS },
        GlCommand::CreateShader { kind: GL_FRAGMENT_SHADER },
        GlCommand::ShaderSource { shader: fragment, source: fragment_source },
        GlCommand::CompileShader { shader: fragment },
        GlCommand::GetShaderiv { shader: fragment, pname: GL_COMPILE_STATUS },
        GlCommand::GetShaderInfoLog { shader: fragment, max_length: INFO_LOG_CAPACITY },
    ]);
}

/// A load whose shaders compile but whose program does not link fails with
/// the program's info log, and deletes neither shader.
pub proof fn lemma_load_link_fails(
    vertex_source: String,
    fragment_source: String,
    vertex: u32,
    fragment: u32,
    program: u32,
    vertex_status: i32,
    fragment_status: i32,
    log: String,
)
    requires
        !has_nul(vertex_source@),
        !has_nul(fragment_source@),
        vertex_status != 0,
        fragment_status != 0,
    ensures
        ({
            let load = load_start(vertex_source, fragment_source);
            let replies = seq![
                GlReply::Name(vertex),
                GlReply::Status(vertex_status),
                GlReply::Name(fragment),
                GlReply::Status(fragment_status),
                GlReply::Name(program),
                GlReply::Status(0),
                GlReply::Log(log),
            ];
            &&& run_accepted(load, replies)
            &&& run(load, replies).stage == (LoadStage::Failed { log })
            &&& load_start_commands() + run_commands(load, replies) == seq![
                GlCommand::CreateShader { kind: GL_VERTEX_SHADER },
                GlCommand::ShaderSource { shader: vertex, source: vertex_source },
                GlCommand::CompileShader { shader: vertex },
                GlCommand::GetShaderiv { shader: vertex, pname: GL_COMPILE_STATUS },
                GlCommand::CreateShader { kind: GL_FRAGMENT_SHADER },
                GlCommand::ShaderSource { shader: fragment, source: fragment_source },
                GlCommand::CompileShader { shader: fragment },
                GlCommand::GetShaderiv { shader: fragment, pname: GL_COMPILE_STATUS },
                GlCommand::CreateProgram,
                GlCommand::AttachShader { program, shader: vertex },
                GlCommand::AttachShader { program, shader: fragment },
                GlCommand::LinkProgram { program },
                GlCommand::GetProgramiv { program, pname: GL_LINK_STATUS },
                GlCommand::GetProgramInfoLog { program, max_length: INFO_LOG_CAPACITY },
            ]
        }),
{
    reveal_with_fuel(run_from, 8);
    reveal_with_fuel(run_accepted_from, 8);
    reveal_with_fuel(run_commands_from, 8);
    let load = load_start(vertex_source, fragment_source);
    let replies = seq![
        GlReply::Name(vertex),
        GlReply::Status(vertex_status),
        GlReply::Name(fragment),
        GlReply::Status(fragment_status),
        GlReply::Name(program),
        GlReply::Status(0),
        GlReply::Log(log),
    ];
    assert(load_start_commands() + run_commands(load, replies) =~= seq![
        GlCommand::CreateShader { kind: GL_VERTEX_SHADER },
        GlCommand::ShaderSource { shader: vertex, source: vertex_source },
        GlCommand::CompileShader { shader: vertex },
        GlCommand::GetShaderiv { shader: vertex, pname: GL_COMPILE_STATUS },
        GlCommand::CreateShader { kind: GL_FRAGMENT_SHADER },
        GlCommand::ShaderSource { shader: fragment, source: fragment_source },
        GlCommand::CompileShader { shader: fragment },
        GlCommand::GetShaderiv { shader: fragment, pname: GL_COMPILE_STATUS },
        GlCommand::CreateProgram,
        GlCommand::AttachShader { program, shader: vertex },
        GlCommand::AttachShader { program, shader: fragment },
        GlCommand::LinkProgram { program },
        GlCommand::GetProgramiv { program, pname: GL_LINK_STATUS },
        GlCommand::GetProgramInfoLog { program, max_length: INFO_LOG_CAPACITY },
    ]);
}

/// A uniform location, once recorded, is what every later lookup of that
/// name gives back without asking GL again, and recording one name leaves
/// the lookup of every other name as it was: `after` is any shader that
/// `record_uniform_location(name, location)` can leave behind from `before`,
/// and `cached_location` is what `get_uniform_locacion` answers from.
pub proof fn lemma_uniform_read_after_record(
    before: Shader,
    after: Shader,
    name: Seq<char>,
    location: i32,
    other: Seq<char>,
)
    requires
        after.program == before.program,
        after.uniforms_location@ == before.uniforms_location@.insert(name, location),
        other != name,
    ensures
        cached_location(after, name) == Some(location),
        cached_location(after, other) == cached_location(before, other),
{
}

} // verus!
