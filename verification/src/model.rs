//! The schema model: the typed, immutable entities a catalogue document is
//! decoded into, with their specification-level mirrors.

use vstd::prelude::*;

verus! {

/// One named member of an [`Enum`].
#[derive(Debug, Clone, PartialEq, Eq)]
pub struct EnumItem {
    pub name: String,
}

pub struct EnumItemV {
    pub name: Seq<char>,
}

impl DeepView for EnumItem {
    type V = EnumItemV;

    open spec fn deep_view(&self) -> EnumItemV {
        EnumItemV { name: self.name@ }
    }
}

/// A named symbolic group (condition codes, for example).
#[derive(Debug, Clone, PartialEq, Eq)]
pub struct Enum {
    pub id: String,
    pub items: Vec<EnumItem>,
    pub stringify: bool,
    pub optional: Option<bool>,
}

pub struct EnumV {
    pub id: Seq<char>,
    pub items: Seq<EnumItemV>,
    pub stringify: bool,
    pub optional: Option<bool>,
}

impl DeepView for Enum {
    type V = EnumV;

    open spec fn deep_view(&self) -> EnumV {
        EnumV {
            id: self.id@,
            items: self.items.deep_view(),
            stringify: self.stringify,
            optional: self.optional,
        }
    }
}

/// Per-addressing-mode operand sizing.
#[derive(Debug, Clone, PartialEq, Eq)]
pub struct Width {
    pub name: String,
    pub width16: u32,
    pub width32: u32,
    pub width64: u32,
}

pub struct WidthV {
    pub name: Seq<char>,
    pub width16: u32,
    pub width32: u32,
    pub width64: u32,
}

impl DeepView for Width {
    type V = WidthV;

    open spec fn deep_view(&self) -> WidthV {
        WidthV {
            name: self.name@,
            width16: self.width16,
            width32: self.width32,
            width64: self.width64,
        }
    }
}

/// One physical or logical register description.
#[derive(Debug, Clone, PartialEq, Eq)]
pub struct Register {
    pub size: u32,
    pub is_first: bool,
    pub is_last: bool,
    pub is_even: bool,
    pub encoding: u32,
    pub datatype: String,
    pub reg: String,
    pub kind: String,
}

pub struct RegisterV {
    pub size: u32,
    pub is_first: bool,
    pub is_last: bool,
    pub is_even: bool,
    pub encoding: u32,
    pub datatype: Seq<char>,
    pub reg: Seq<char>,
    pub kind: Seq<char>,
}

impl DeepView for Register {
    type V = RegisterV;

    open spec fn deep_view(&self) -> RegisterV {
        RegisterV {
            size: self.size,
            is_first: self.is_first,
            is_last: self.is_last,
            is_even: self.is_even,
            encoding: self.encoding,
            datatype: self.datatype@,
            reg: self.reg@,
            kind: self.kind@,
        }
    }
}

/// Deprecation and instruction-set-architecture metadata of a [`Record`].
#[derive(Debug, Clone, PartialEq, Eq)]
pub struct RecordMetadata {
    pub deprecated: bool,
    pub isa: String,
}

pub struct RecordMetadataV {
    pub deprecated: bool,
    pub isa: Seq<char>,
}

impl DeepView for RecordMetadata {
    type V = RecordMetadataV;

    open spec fn deep_view(&self) -> RecordMetadataV {
        RecordMetadataV { deprecated: self.deprecated, isa: self.isa@ }
    }
}

/// One bit field of a [`RecordDiagram`].
#[derive(Debug, Clone, PartialEq, Eq)]
pub struct RecordDiagramField {
    pub value: String,
    pub name: String,
}

pub struct RecordDiagramFieldV {
    pub value: Seq<char>,
    pub name: Seq<char>,
}

impl DeepView for RecordDiagramField {
    type V = RecordDiagramFieldV;

    open spec fn deep_view(&self) -> RecordDiagramFieldV {
        RecordDiagramFieldV { value: self.value@, name: self.name@ }
    }
}

/// The bit-layout of a [`Record`]'s encoding.
#[derive(Debug, Clone, PartialEq, Eq)]
pub struct RecordDiagram {
    pub fields: Vec<RecordDiagramField>,
}

pub struct RecordDiagramV {
    pub fields: Seq<RecordDiagramFieldV>,
}

impl DeepView for RecordDiagram {
    type V = RecordDiagramV;

    open spec fn deep_view(&self) -> RecordDiagramV {
        RecordDiagramV { fields: self.fields.deep_view() }
    }
}

/// Documentation tags of a [`Record`].
#[derive(Debug, Clone, PartialEq, Eq)]
pub struct RecordTags {
    pub page: String,
}

pub struct RecordTagsV {
    pub page: Seq<char>,
}

impl DeepView for RecordTags {
    type V = RecordTagsV;

    open spec fn deep_view(&self) -> RecordTagsV {
        RecordTagsV { page: self.page@ }
    }
}

/// Prefix metadata of a [`RecordTemplate`].
#[derive(Debug, Clone, PartialEq, Eq)]
pub struct RecordTemplateMetadata {
    pub xacquire: Option<bool>,
    pub lock: Option<bool>,
    pub xrelease: Option<bool>,
}

pub struct RecordTemplateMetadataV {
    pub xacquire: Option<bool>,
    pub lock: Option<bool>,
    pub xrelease: Option<bool>,
}

impl DeepView for RecordTemplateMetadata {
    type V = RecordTemplateMetadataV;

    open spec fn deep_view(&self) -> RecordTemplateMetadataV {
        RecordTemplateMetadataV {
            xacquire: self.xacquire,
            lock: self.lock,
            xrelease: self.xrelease,
        }
    }
}

/// One bit-difference field of a [`RecordTemplateBitdiffs`].
#[derive(Debug, Clone, PartialEq, Eq)]
pub struct RecordTemplateBitdiffsField {
    pub value: String,
    pub name: String,
}

pub struct RecordTemplateBitdiffsFieldV {
    pub value: Seq<char>,
    pub name: Seq<char>,
}

impl DeepView for RecordTemplateBitdiffsField {
    type V = RecordTemplateBitdiffsFieldV;

    open spec fn deep_view(&self) -> RecordTemplateBitdiffsFieldV {
        RecordTemplateBitdiffsFieldV { value: self.value@, name: self.name@ }
    }
}

/// The bit differences that distinguish one [`RecordTemplate`] from its
/// record's base diagram.
#[derive(Debug, Clone, PartialEq, Eq)]
pub struct RecordTemplateBitdiffs {
    pub fields: Vec<RecordTemplateBitdiffsField>,
}

pub struct RecordTemplateBitdiffsV {
    pub fields: Seq<RecordTemplateBitdiffsFieldV>,
}

impl DeepView for RecordTemplateBitdiffs {
    type V = RecordTemplateBitdiffsV;

    open spec fn deep_view(&self) -> RecordTemplateBitdiffsV {
        RecordTemplateBitdiffsV { fields: self.fields.deep_view() }
    }
}

/// One node of an operand-syntax tree: the open `ast_type` tag
/// discriminates the node's kind and is passed through verbatim.
#[derive(Debug, Clone, PartialEq, Eq)]
pub struct RecordAst {
    pub ast_type: String,
    pub value: Option<String>,
    pub suppressed: Option<bool>,
    pub read: Option<bool>,
    pub write: Option<bool>,
    pub size: Option<u32>,
    pub datatype: Option<String>,
    pub encodedin: Option<String>,
    pub symbol: Option<String>,
}

pub struct RecordAstV {
    pub ast_type: Seq<char>,
    pub value: Option<Seq<char>>,
    pub suppressed: Option<bool>,
    pub read: Option<bool>,
    pub write: Option<bool>,
    pub size: Option<u32>,
    pub datatype: Option<Seq<char>>,
    pub encodedin: Option<Seq<char>>,
    pub symbol: Option<Seq<char>>,
}

impl DeepView for RecordAst {
    type V = RecordAstV;

    open spec fn deep_view(&self) -> RecordAstV {
        RecordAstV {
            ast_type: self.ast_type@,
            value: self.value.deep_view(),
            suppressed: self.suppressed,
            read: self.read,
            write: self.write,
            size: self.size,
            datatype: self.datatype.deep_view(),
            encodedin: self.encodedin.deep_view(),
            symbol: self.symbol.deep_view(),
        }
    }
}

/// The operand syntax of one [`RecordTemplate`]: mnemonic, human-readable
/// text, and the ordered operand AST.
#[derive(Debug, Clone, PartialEq, Eq)]
pub struct RecordTemplateSyntax {
    pub mnem: String,
    pub text: String,
    pub ast: Vec<RecordAst>,
}

pub struct RecordTemplateSyntaxV {
    pub mnem: Seq<char>,
    pub text: Seq<char>,
    pub ast: Seq<RecordAstV>,
}

impl DeepView for RecordTemplateSyntax {
    type V = RecordTemplateSyntaxV;

    open spec fn deep_view(&self) -> RecordTemplateSyntaxV {
        RecordTemplateSyntaxV { mnem: self.mnem@, text: self.text@, ast: self.ast.deep_view() }
    }
}

/// One concrete encoding form of a [`Record`].
#[derive(Debug, Clone, PartialEq, Eq)]
pub struct RecordTemplate {
    pub metadata: RecordTemplateMetadata,
    pub bitdiffs: Option<RecordTemplateBitdiffs>,
    pub syntax: RecordTemplateSyntax,
}

pub struct RecordTemplateV {
    pub metadata: RecordTemplateMetadataV,
    pub bitdiffs: Option<RecordTemplateBitdiffsV>,
    pub syntax: RecordTemplateSyntaxV,
}

impl DeepView for RecordTemplate {
    type V = RecordTemplateV;

    open spec fn deep_view(&self) -> RecordTemplateV {
        RecordTemplateV {
            metadata: self.metadata.deep_view(),
            bitdiffs: self.bitdiffs.deep_view(),
            syntax: self.syntax.deep_view(),
        }
    }
}

/// Status-flag behavior of a [`Record`], one effect code per flag.
#[derive(Debug, Clone, PartialEq, Eq)]
pub struct RecordIflags {
    pub af: String,
    pub of: String,
    pub cf: String,
    pub sf: String,
    pub zf: String,
    pub pf: String,
}

pub struct RecordIflagsV {
    pub af: Seq<char>,
    pub of: Seq<char>,
    pub cf: Seq<char>,
    pub sf: Seq<char>,
    pub zf: Seq<char>,
    pub pf: Seq<char>,
}

impl DeepView for RecordIflags {
    type V = RecordIflagsV;

    open spec fn deep_view(&self) -> RecordIflagsV {
        RecordIflagsV {
            af: self.af@,
            of: self.of@,
            cf: self.cf@,
            sf: self.sf@,
            zf: self.zf@,
            pf: self.pf@,
        }
    }
}

/// One catalogue entry: an instruction or a group of instructions.  The
/// open `rectype` tag is passed through verbatim for downstream consumers.
#[derive(Debug, Clone, PartialEq, Eq)]
pub struct Record {
    pub id: String,
    pub rectype: String,
    pub title: Option<String>,
    pub extensions: Option<Vec<String>>,
    pub metadata: Option<RecordMetadata>,
    pub diagram: Option<RecordDiagram>,
    pub categories: Option<Vec<String>>,
    pub tags: Option<RecordTags>,
    pub templates: Option<Vec<RecordTemplate>>,
    pub iflags: Option<RecordIflags>,
}

pub struct RecordV {
    pub id: Seq<char>,
    pub rectype: Seq<char>,
    pub title: Option<Seq<char>>,
    pub extensions: Option<Seq<Seq<char>>>,
    pub metadata: Option<RecordMetadataV>,
    pub diagram: Option<RecordDiagramV>,
    pub categories: Option<Seq<Seq<char>>>,
    pub tags: Option<RecordTagsV>,
    pub templates: Option<Seq<RecordTemplateV>>,
    pub iflags: Option<RecordIflagsV>,
}

impl DeepView for Record {
    type V = RecordV;

    open spec fn deep_view(&self) -> RecordV {
        RecordV {
            id: self.id@,
            rectype: self.rectype@,
            title: self.title.deep_view(),
            extensions: self.extensions.deep_view(),
            metadata: self.metadata.deep_view(),
            diagram: self.diagram.deep_view(),
            categories: self.categories.deep_view(),
            tags: self.tags.deep_view(),
            templates: self.templates.deep_view(),
            iflags: self.iflags.deep_view(),
        }
    }
}

/// Reserved extension point; a table carries no data yet.
#[derive(Debug, Clone, PartialEq, Eq)]
pub struct Table {}

pub struct TableV {}

impl DeepView for Table {
    type V = TableV;

    open spec fn deep_view(&self) -> TableV {
        TableV {  }
    }
}

/// The root of a loaded catalogue: architecture name, format version, and
/// the four top-level catalogues plus the reserved table list.
#[derive(Debug, Clone, PartialEq, Eq)]
pub struct OpcodesDatabase {
    pub arch: String,
    pub version: String,
    pub enums: Vec<Enum>,
    pub widths: Vec<Width>,
    pub registers: Vec<Register>,
    pub records: Vec<Record>,
    pub tables: Vec<Table>,
}

pub struct OpcodesDatabaseV {
    pub arch: Seq<char>,
    pub version: Seq<char>,
    pub enums: Seq<EnumV>,
    pub widths: Seq<WidthV>,
    pub registers: Seq<RegisterV>,
    pub records: Seq<RecordV>,
    pub tables: Seq<TableV>,
}

impl DeepView for OpcodesDatabase {
    type V = OpcodesDatabaseV;

    open spec fn deep_view(&self) -> OpcodesDatabaseV {
        OpcodesDatabaseV {
            arch: self.arch@,
            version: self.version@,
            enums: self.enums.deep_view(),
            widths: self.widths.deep_view(),
            registers: self.registers.deep_view(),
            records: self.records.deep_view(),
            tables: self.tables.deep_view(),
        }
    }
}

} // verus!
