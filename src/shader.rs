use vstd::prelude::*;

verus! {

/// The value a status query reports for a shader that compiled or a
/// program that linked.
pub const STATUS_OK: i32 = 1;

/// How many bytes of a driver's info log are read and reported.
pub const INFO_LOG_CAPACITY: usize = 512;

/// The stage of a compiled shader object.
#[derive(Clone, Copy, Debug, PartialEq, Eq, Structural)]
pub enum ShaderStage {
    Vertex,
    Fragment,
}

/// The two linked programs: each joins the shared vertex shader with one
/// fragment shader of its colour.
#[derive(Clone, Copy, Debug, PartialEq, Eq, Structural)]
pub enum ProgramKind {
    Orange,
    Yellow,
}

/// A failed compile or link, with the text of the driver's info log.
#[derive(Debug)]
pub enum BuildError {
    Compile { stage: ShaderStage, log: Vec<u8> },
    Link { program: ProgramKind, log: Vec<u8> },
}

/// The text of an info log buffer: the bytes before the first NUL, and no
/// more than `INFO_LOG_CAPACITY` of them.
pub open spec fn log_text(buf: Seq<u8>) -> Seq<u8> {
    let limit = if buf.len() < INFO_LOG_CAPACITY { buf.len() as int } else { INFO_LOG_CAPACITY as int };
    buf.take(first_nul(buf, limit))
}

/// The index of the first NUL byte among the first `limit` bytes of `buf`,
/// or `limit` when there is none.
pub open spec fn first_nul(buf: Seq<u8>, limit: int) -> int
    decreases limit,
{
    if limit <= 0 {
        0
    } else if first_nul(buf, limit - 1) < limit - 1 {
        first_nul(buf, limit - 1)
    } else if buf[limit - 1] == 0 {
        limit - 1
    } else {
        limit
    }
}

proof fn lemma_first_nul(buf: Seq<u8>, limit: int)
    requires
        0 <= limit <= buf.len(),
    ensures
        0 <= first_nul(buf, limit) <= limit,
        forall|k: int| 0 <= k < first_nul(buf, limit) ==> buf[k] != 0,
        first_nul(buf, limit) < limit ==> buf[first_nul(buf, limit)] == 0,
    decreases limit,
{
    if limit > 0 {
        lemma_first_nul(buf, limit - 1);
    }
}

/// Reads the text out of an info log buffer that a driver filled.
pub fn info_log_text(buf: &Vec<u8>) -> (r: Vec<u8>)
    ensures
        r@ == log_text(buf@),
{
    let limit: usize = if buf.len() < INFO_LOG_CAPACITY { buf.len() } else { INFO_LOG_CAPACITY };
    let mut r: Vec<u8> = Vec::new();
    let mut i: usize = 0;
    while i < limit && buf[i] != 0
        invariant
            limit <= buf.len(),
            limit == (if buf@.len() < INFO_LOG_CAPACITY { buf@.len() as int } else { INFO_LOG_CAPACITY as int }),
            i <= limit,
            r@ == buf@.take(i as int),
            forall|k: int| 0 <= k < i ==> buf@[k] != 0,
        decreases limit - i,
    {
        r.push(buf[i]);
        i = i + 1;
        assert(r@ =~= buf@.take(i as int));
    }
    proof {
        lemma_first_nul(buf@, limit as int);
        lemma_first_nul_is_first(buf@, limit as int, i as int);
    }
    r
}

proof fn lemma_first_nul_is_first(buf: Seq<u8>, limit: int, i: int)
    requires
        0 <= i <= limit <= buf.len(),
        forall|k: int| 0 <= k < i ==> buf[k] != 0,
        i == limit || buf[i] == 0,
    ensures
        first_nul(buf, limit) == i,
{
    lemma_first_nul(buf, limit);
    let f = first_nul(buf, limit);
    if f < i {
        assert(buf[f] == 0);
    }
    if f > i {
        assert(buf[i] != 0);
    }
}

/// Reads the compile status of a shader: `None` when it compiled, else the
/// failure with the text of its info log.
pub fn check_compile(stage: ShaderStage, status: i32, log: &Vec<u8>) -> (r: Option<BuildError>)
    ensures
        r.is_none() <==> status == STATUS_OK,
        r.is_some() ==> r.unwrap().is_compile_of(stage, log_text(log@)),
{
    if status == STATUS_OK {
        None
    } else {
        Some(BuildError::Compile { stage, log: info_log_text(log) })
    }
}

/// Reads the link status of a program: `None` when it linked, else the
/// failure with the text of its info log.
pub fn check_link(program: ProgramKind, status: i32, log: &Vec<u8>) -> (r: Option<BuildError>)
    ensures
        r.is_none() <==> status == STATUS_OK,
        r.is_some() ==> r.unwrap().is_link_of(program, log_text(log@)),
{
    if status == STATUS_OK {
        None
    } else {
        Some(BuildError::Link { program, log: info_log_text(log) })
    }
}

impl BuildError {
    pub open spec fn is_compile_of(&self, stage: ShaderStage, text: Seq<u8>) -> bool {
        match self {
            BuildError::Compile { stage: s, log } => *s == stage && log@ == text,
            _ => false,
        }
    }

    pub open spec fn is_link_of(&self, program: ProgramKind, text: Seq<u8>) -> bool {
        match self {
            BuildError::Link { program: p, log } => *p == program && log@ == text,
            _ => false,
        }
    }

    /// The first line printed for the failure.
    pub open spec fn headline_spec(&self) -> Seq<char> {
        match self {
            BuildError::Compile { stage: ShaderStage::Vertex, .. } => "ERROR::SHADER::VERTEX::COMPILATION_FAILED"@,
            BuildError::Compile { stage: ShaderStage::Fragment, .. } => "ERROR::SHADER::FRAGMENT::COMPILATION_FAILED"@,
            BuildError::Link { program: ProgramKind::Orange, .. } => "ERROR::PROGRAM::ORANGE_SHADER::LINKING_FAILED"@,
            BuildError::Link { program: ProgramKind::Yellow, .. } => "ERROR::PROGRAM::YELLOW_SHADER::LINKING_FAILED"@,
        }
    }

    /// The first line printed for the failure; never empty.
    pub fn headline(&self) -> (r: &'static str)
        ensures
            r@ == self.headline_spec(),
            r@.len() > 0,
    {
        match self {
            BuildError::Compile { stage: ShaderStage::Vertex, .. } => {
                proof { reveal_strlit("ERROR::SHADER::VERTEX::COMPILATION_FAILED"); }
                "ERROR::SHADER::VERTEX::COMPILATION_FAILED"
            },
            BuildError::Compile { stage: ShaderStage::Fragment, .. } => {
                proof { reveal_strlit("ERROR::SHADER::FRAGMENT::COMPILATION_FAILED"); }
                "ERROR::SHADER::FRAGMENT::COMPILATION_FAILED"
            },
            BuildError::Link { program: ProgramKind::Orange, .. } => {
                proof { reveal_strlit("ERROR::PROGRAM::ORANGE_SHADER::LINKING_FAILED"); }
                "ERROR::PROGRAM::ORANGE_SHADER::LINKING_FAILED"
            },
            BuildError::Link { program: ProgramKind::Yellow, .. } => {
                proof { reveal_strlit("ERROR::PROGRAM::YELLOW_SHADER::LINKING_FAILED"); }
                "ERROR::PROGRAM::YELLOW_SHADER::LINKING_FAILED"
            },
        }
    }

    /// The info log text that came with the failure.
    pub open spec fn log_spec(&self) -> Seq<u8> {
        match self {
            BuildError::Compile { log, .. } => log@,
            BuildError::Link { log, .. } => log@,
        }
    }

    /// The info log text that came with the failure.
    pub fn log(&self) -> (r: &Vec<u8>)
        ensures
            r@ == self.log_spec(),
    {
        match self {
            BuildError::Compile { log, .. } => log,
            BuildError::Link { log, .. } => log,
        }
    }
}

/// Every failure, of a compile or of a link, is reported with a non-empty
/// headline.
pub proof fn lemma_failure_headline_not_empty(e: BuildError)
    ensures
        e.headline_spec().len() > 0,
{
    reveal_strlit("ERROR::SHADER::VERTEX::COMPILATION_FAILED");
    reveal_strlit("ERROR::SHADER::FRAGMENT::COMPILATION_FAILED");
    reveal_strlit("ERROR::PROGRAM::ORANGE_SHADER::LINKING_FAILED");
    reveal_strlit("ERROR::PROGRAM::YELLOW_SHADER::LINKING_FAILED");
}

} // verus!
