//! The metadata document recorded beside each compiled kernel, and its schema.
use vstd::prelude::*;
use vstd::string::*;
use crate::json::{
    JsonValue, lookup, as_u32, as_bool, as_text, as_u32_list, as_text_list, as_rendered_list, texts,
    find_member, u32_of, bool_of, text_of_value, u32_list_of, text_list_of, rendered_list_of,
};

verus! {

/// Why a metadata document does not fit the schema.
#[derive(Debug)]
pub enum MetadataError {
    /// The text is not a JSON document; the parser's diagnostic.
    Syntax(String),
    /// The document is not a JSON object.
    NotAnObject,
    /// A required field is absent.
    MissingField(String),
    /// A field holds a value of the wrong shape.
    InvalidType(String),
}

impl MetadataError {
    /// The error names the field `key` of `fields`: missing when it is absent,
    /// of the wrong shape when it is there.
    pub open spec fn names_field(self, fields: Seq<(String, JsonValue)>, key: Seq<char>) -> bool {
        match self {
            MetadataError::MissingField(k) => k@ == key && lookup(fields, key) is None,
            MetadataError::InvalidType(k) => k@ == key && lookup(fields, key) is Some,
            _ => false,
        }
    }
}

/// The compile-time settings that the compiler recorded for one kernel.
#[derive(Debug)]
#[allow(non_snake_case)]
pub struct TritonMetadata {
    pub target: Vec<String>,
    pub num_warps: u32,
    pub num_ctas: u32,
    pub num_stages: u32,
    pub cluster_dims: Vec<u32>,
    pub ptx_version: Option<u32>,
    pub enable_warp_specialization: bool,
    pub enable_persistent: bool,
    pub optimize_epilogue: bool,
    pub enable_fp_fusion: bool,
    pub allow_fp8e4nv: bool,
    pub max_num_imprecise_acc_default: u32,
    pub extern_libs: Option<Vec<String>>,
    pub debug: Option<bool>,
    pub AMDGCN_ENABLE_DUMP: bool,
    pub DISABLE_FAST_REDUCTION: bool,
    pub DISABLE_MMA_V3: bool,
    pub ENABLE_TMA: bool,
    pub LLVM_IR_ENABLE_DUMP: bool,
    pub MLIR_ENABLE_DUMP: bool,
    pub TRITON_DISABLE_LINE_INFO: bool,
    pub ids_of_folded_args: Vec<u32>,
    pub ids_of_tensormaps: Option<Vec<u32>>,
    pub shared: u32,
    pub name: String,
}

/// The optional field `key`, read as `bool`: absent and `null` both read as `None`.
pub open spec fn optional_bool(fields: Seq<(String, JsonValue)>, key: Seq<char>) -> Option<Option<bool>> {
    match lookup(fields, key) {
        None => Some(None),
        Some(JsonValue::Null) => Some(None),
        Some(v) => match as_bool(v) {
            Some(x) => Some(Some(x)),
            None => None,
        },
    }
}

/// The required field `key`, read as `bool`.
pub open spec fn required_bool(fields: Seq<(String, JsonValue)>, key: Seq<char>) -> Option<bool> {
    match lookup(fields, key) {
        Some(v) => as_bool(v),
        None => None,
    }
}

/// The required field `key`, read as `Vec<String>`.
pub open spec fn required_rendered(fields: Seq<(String, JsonValue)>, key: Seq<char>) -> Option<Seq<Seq<char>>> {
    match lookup(fields, key) {
        Some(v) => as_rendered_list(v),
        None => None,
    }
}

/// The required field `key`, read as `String`.
pub open spec fn required_text(fields: Seq<(String, JsonValue)>, key: Seq<char>) -> Option<Seq<char>> {
    match lookup(fields, key) {
        Some(v) => as_text(v),
        None => None,
    }
}

/// The optional field `key`, read as `Vec<String>`: absent and `null` both read as `None`.
pub open spec fn optional_text_list(fields: Seq<(String, JsonValue)>, key: Seq<char>) -> Option<Option<Seq<Seq<char>>>> {
    match lookup(fields, key) {
        None => Some(None),
        Some(JsonValue::Null) => Some(None),
        Some(v) => match as_text_list(v) {
            Some(x) => Some(Some(x)),
            None => None,
        },
    }
}

/// The optional field `key`, read as `u32`: absent and `null` both read as `None`.
pub open spec fn optional_u32(fields: Seq<(String, JsonValue)>, key: Seq<char>) -> Option<Option<u32>> {
    match lookup(fields, key) {
        None => Some(None),
        Some(JsonValue::Null) => Some(None),
        Some(v) => match as_u32(v) {
            Some(x) => Some(Some(x)),
            None => None,
        },
    }
}

/// The required field `key`, read as `u32`.
pub open spec fn required_u32(fields: Seq<(String, JsonValue)>, key: Seq<char>) -> Option<u32> {
    match lookup(fields, key) {
        Some(v) => as_u32(v),
        None => None,
    }
}

/// The optional field `key`, read as `Vec<u32>`: absent and `null` both read as `None`.
pub open spec fn optional_u32_list(fields: Seq<(String, JsonValue)>, key: Seq<char>) -> Option<Option<Seq<u32>>> {
    match lookup(fields, key) {
        None => Some(None),
        Some(JsonValue::Null) => Some(None),
        Some(v) => match as_u32_list(v) {
            Some(x) => Some(Some(x)),
            None => None,
        },
    }
}

/// The required field `key`, read as `Vec<u32>`.
pub open spec fn required_u32_list(fields: Seq<(String, JsonValue)>, key: Seq<char>) -> Option<Seq<u32>> {
    match lookup(fields, key) {
        Some(v) => as_u32_list(v),
        None => None,
    }
}

pub open spec fn opt_u32_seq(o: Option<Vec<u32>>) -> Option<Seq<u32>> {
    match o {
        Some(v) => Some(v@),
        None => None,
    }
}

pub open spec fn opt_texts(o: Option<Vec<String>>) -> Option<Seq<Seq<char>>> {
    match o {
        Some(v) => Some(texts(v@)),
        None => None,
    }
}

/// Every field of the schema is present where required and of the right shape.
pub open spec fn fits_schema(fields: Seq<(String, JsonValue)>) -> bool {
    &&& required_rendered(fields, "target"@) is Some
    &&& required_u32(fields, "num_warps"@) is Some
    &&& required_u32(fields, "num_ctas"@) is Some
    &&& required_u32(fields, "num_stages"@) is Some
    &&& required_u32_list(fields, "cluster_dims"@) is Some
    &&& optional_u32(fields, "ptx_version"@) is Some
    &&& required_bool(fields, "enable_warp_specialization"@) is Some
    &&& required_bool(fields, "enable_persistent"@) is Some
    &&& required_bool(fields, "optimize_epilogue"@) is Some
    &&& required_bool(fields, "enable_fp_fusion"@) is Some
    &&& required_bool(fields, "allow_fp8e4nv"@) is Some
    &&& required_u32(fields, "max_num_imprecise_acc_default"@) is Some
    &&& optional_text_list(fields, "extern_libs"@) is Some
    &&& optional_bool(fields, "debug"@) is Some
    &&& required_bool(fields, "AMDGCN_ENABLE_DUMP"@) is Some
    &&& required_bool(fields, "DISABLE_FAST_REDUCTION"@) is Some
    &&& required_bool(fields, "DISABLE_MMA_V3"@) is Some
    &&& required_bool(fields, "ENABLE_TMA"@) is Some
    &&& required_bool(fields, "LLVM_IR_ENABLE_DUMP"@) is Some
    &&& required_bool(fields, "MLIR_ENABLE_DUMP"@) is Some
    &&& required_bool(fields, "TRITON_DISABLE_LINE_INFO"@) is Some
    &&& required_u32_list(fields, "ids_of_folded_args"@) is Some
    &&& optional_u32_list(fields, "ids_of_tensormaps"@) is Some
    &&& required_u32(fields, "shared"@) is Some
    &&& required_text(fields, "name"@) is Some
}

/// `key` is a field of the schema that `fields` does not satisfy.
pub open spec fn fails_at(fields: Seq<(String, JsonValue)>, key: Seq<char>) -> bool {
    ||| (key == "target"@ && required_rendered(fields, key) is None)
    ||| (key == "num_warps"@ && required_u32(fields, key) is None)
    ||| (key == "num_ctas"@ && required_u32(fields, key) is None)
    ||| (key == "num_stages"@ && required_u32(fields, key) is None)
    ||| (key == "cluster_dims"@ && required_u32_list(fields, key) is None)
    ||| (key == "ptx_version"@ && optional_u32(fields, key) is None)
    ||| (key == "enable_warp_specialization"@ && required_bool(fields, key) is None)
    ||| (key == "enable_persistent"@ && required_bool(fields, key) is None)
    ||| (key == "optimize_epilogue"@ && required_bool(fields, key) is None)
    ||| (key == "enable_fp_fusion"@ && required_bool(fields, key) is None)
    ||| (key == "allow_fp8e4nv"@ && required_bool(fields, key) is None)
    ||| (key == "max_num_imprecise_acc_default"@ && required_u32(fields, key) is None)
    ||| (key == "extern_libs"@ && optional_text_list(fields, key) is None)
    ||| (key == "debug"@ && optional_bool(fields, key) is None)
    ||| (key == "AMDGCN_ENABLE_DUMP"@ && required_bool(fields, key) is None)
    ||| (key == "DISABLE_FAST_REDUCTION"@ && required_bool(fields, key) is None)
    ||| (key == "DISABLE_MMA_V3"@ && required_bool(fields, key) is None)
    ||| (key == "ENABLE_TMA"@ && required_bool(fields, key) is None)
    ||| (key == "LLVM_IR_ENABLE_DUMP"@ && required_bool(fields, key) is None)
    ||| (key == "MLIR_ENABLE_DUMP"@ && required_bool(fields, key) is None)
    ||| (key == "TRITON_DISABLE_LINE_INFO"@ && required_bool(fields, key) is None)
    ||| (key == "ids_of_folded_args"@ && required_u32_list(fields, key) is None)
    ||| (key == "ids_of_tensormaps"@ && optional_u32_list(fields, key) is None)
    ||| (key == "shared"@ && required_u32(fields, key) is None)
    ||| (key == "name"@ && required_text(fields, key) is None)
}

/// What the decoded record holds, given the members of the document.
pub open spec fn decoded_from(m: TritonMetadata, fields: Seq<(String, JsonValue)>) -> bool {
    &&& required_rendered(fields, "target"@) == Some(texts(m.target@))
    &&& required_u32(fields, "num_warps"@) == Some(m.num_warps)
    &&& required_u32(fields, "num_ctas"@) == Some(m.num_ctas)
    &&& required_u32(fields, "num_stages"@) == Some(m.num_stages)
    &&& required_u32_list(fields, "cluster_dims"@) == Some(m.cluster_dims@)
    &&& optional_u32(fields, "ptx_version"@) == Some(m.ptx_version)
    &&& required_bool(fields, "enable_warp_specialization"@) == Some(m.enable_warp_specialization)
    &&& required_bool(fields, "enable_persistent"@) == Some(m.enable_persistent)
    &&& required_bool(fields, "optimize_epilogue"@) == Some(m.optimize_epilogue)
    &&& required_bool(fields, "enable_fp_fusion"@) == Some(m.enable_fp_fusion)
    &&& required_bool(fields, "allow_fp8e4nv"@) == Some(m.allow_fp8e4nv)
    &&& required_u32(fields, "max_num_imprecise_acc_default"@) == Some(m.max_num_imprecise_acc_default)
    &&& optional_text_list(fields, "extern_libs"@) == Some(opt_texts(m.extern_libs))
    &&& optional_bool(fields, "debug"@) == Some(m.debug)
    &&& required_bool(fields, "AMDGCN_ENABLE_DUMP"@) == Some(m.AMDGCN_ENABLE_DUMP)
    &&& required_bool(fields, "DISABLE_FAST_REDUCTION"@) == Some(m.DISABLE_FAST_REDUCTION)
    &&& required_bool(fields, "DISABLE_MMA_V3"@) == Some(m.DISABLE_MMA_V3)
    &&& required_bool(fields, "ENABLE_TMA"@) == Some(m.ENABLE_TMA)
    &&& required_bool(fields, "LLVM_IR_ENABLE_DUMP"@) == Some(m.LLVM_IR_ENABLE_DUMP)
    &&& required_bool(fields, "MLIR_ENABLE_DUMP"@) == Some(m.MLIR_ENABLE_DUMP)
    &&& required_bool(fields, "TRITON_DISABLE_LINE_INFO"@) == Some(m.TRITON_DISABLE_LINE_INFO)
    &&& required_u32_list(fields, "ids_of_folded_args"@) == Some(m.ids_of_folded_args@)
    &&& optional_u32_list(fields, "ids_of_tensormaps"@) == Some(opt_u32_seq(m.ids_of_tensormaps))
    &&& required_u32(fields, "shared"@) == Some(m.shared)
    &&& required_text(fields, "name"@) == Some(m.name@)
}

/// Reads the optional field `key` as a boolean; absent or `null` gives `None`.
fn read_optional_bool(fields: &Vec<(String, JsonValue)>, key: &str) -> (r: Result<Option<bool>, MetadataError>)
    ensures
        r matches Ok(x) ==> optional_bool(fields@, key@) == Some(x),
        r is Err <==> optional_bool(fields@, key@) is None,
        r matches Err(e) ==> e.names_field(fields@, key@),
{
    match find_member(fields, key) {
        Some(i) => match &fields[i].1 {
            JsonValue::Null => Ok(None),
            v => match bool_of(v) {
                Some(x) => Ok(Some(x)),
                None => Err(MetadataError::InvalidType(String::from_str(key))),
            },
        },
        None => Ok(None),
    }
}

/// Reads the required field `key` as a boolean.
fn read_required_bool(fields: &Vec<(String, JsonValue)>, key: &str) -> (r: Result<bool, MetadataError>)
    ensures
        r matches Ok(x) ==> required_bool(fields@, key@) == Some(x),
        r is Err <==> required_bool(fields@, key@) is None,
        r matches Err(e) ==> e.names_field(fields@, key@),
{
    match find_member(fields, key) {
        Some(i) => match bool_of(&fields[i].1) {
            Some(x) => Ok(x),
            None => Err(MetadataError::InvalidType(String::from_str(key))),
        },
        None => Err(MetadataError::MissingField(String::from_str(key))),
    }
}

/// Reads the required field `key` as a list of JSON texts.
fn read_required_rendered(fields: &Vec<(String, JsonValue)>, key: &str) -> (r: Result<Vec<String>, MetadataError>)
    ensures
        r matches Ok(x) ==> required_rendered(fields@, key@) == Some(texts(x@)),
        r is Err <==> required_rendered(fields@, key@) is None,
        r matches Err(e) ==> e.names_field(fields@, key@),
{
    match find_member(fields, key) {
        Some(i) => match rendered_list_of(&fields[i].1) {
            Some(x) => Ok(x),
            None => Err(MetadataError::InvalidType(String::from_str(key))),
        },
        None => Err(MetadataError::MissingField(String::from_str(key))),
    }
}

/// Reads the required field `key` as a string.
fn read_required_text(fields: &Vec<(String, JsonValue)>, key: &str) -> (r: Result<String, MetadataError>)
    ensures
        r matches Ok(x) ==> required_text(fields@, key@) == Some(x@),
        r is Err <==> required_text(fields@, key@) is None,
        r matches Err(e) ==> e.names_field(fields@, key@),
{
    match find_member(fields, key) {
        Some(i) => match text_of_value(&fields[i].1) {
            Some(x) => Ok(x),
            None => Err(MetadataError::InvalidType(String::from_str(key))),
        },
        None => Err(MetadataError::MissingField(String::from_str(key))),
    }
}

/// Reads the optional field `key` as a list of strings; absent or `null` gives `None`.
fn read_optional_text_list(fields: &Vec<(String, JsonValue)>, key: &str) -> (r: Result<Option<Vec<String>>, MetadataError>)
    ensures
        r matches Ok(x) ==> optional_text_list(fields@, key@) == Some(opt_texts(x)),
        r is Err <==> optional_text_list(fields@, key@) is None,
        r matches Err(e) ==> e.names_field(fields@, key@),
{
    match find_member(fields, key) {
        Some(i) => match &fields[i].1 {
            JsonValue::Null => Ok(None),
            v => match text_list_of(v) {
                Some(x) => Ok(Some(x)),
                None => Err(MetadataError::InvalidType(String::from_str(key))),
            },
        },
        None => Ok(None),
    }
}

/// Reads the optional field `key` as a `u32`; absent or `null` gives `None`.
fn read_optional_u32(fields: &Vec<(String, JsonValue)>, key: &str) -> (r: Result<Option<u32>, MetadataError>)
    ensures
        r matches Ok(x) ==> optional_u32(fields@, key@) == Some(x),
        r is Err <==> optional_u32(fields@, key@) is None,
        r matches Err(e) ==> e.names_field(fields@, key@),
{
    match find_member(fields, key) {
        Some(i) => match &fields[i].1 {
            JsonValue::Null => Ok(None),
            v => match u32_of(v) {
                Some(x) => Ok(Some(x)),
                None => Err(MetadataError::InvalidType(String::from_str(key))),
            },
        },
        None => Ok(None),
    }
}

/// Reads the required field `key` as a `u32`.
fn read_required_u32(fields: &Vec<(String, JsonValue)>, key: &str) -> (r: Result<u32, MetadataError>)
    ensures
        r matches Ok(x) ==> required_u32(fields@, key@) == Some(x),
        r is Err <==> required_u32(fields@, key@) is None,
        r matches Err(e) ==> e.names_field(fields@, key@),
{
    match find_member(fields, key) {
        Some(i) => match u32_of(&fields[i].1) {
            Some(x) => Ok(x),
            None => Err(MetadataError::InvalidType(String::from_str(key))),
        },
        None => Err(MetadataError::MissingField(String::from_str(key))),
    }
}

/// Reads the optional field `key` as a list of `u32`; absent or `null` gives `None`.
fn read_optional_u32_list(fields: &Vec<(String, JsonValue)>, key: &str) -> (r: Result<Option<Vec<u32>>, MetadataError>)
    ensures
        r matches Ok(x) ==> optional_u32_list(fields@, key@) == Some(opt_u32_seq(x)),
        r is Err <==> optional_u32_list(fields@, key@) is None,
        r matches Err(e) ==> e.names_field(fields@, key@),
{
    match find_member(fields, key) {
        Some(i) => match &fields[i].1 {
            JsonValue::Null => Ok(None),
            v => match u32_list_of(v) {
                Some(x) => Ok(Some(x)),
                None => Err(MetadataError::InvalidType(String::from_str(key))),
            },
        },
        None => Ok(None),
    }
}

/// Reads the required field `key` as a list of `u32`.
fn read_required_u32_list(fields: &Vec<(String, JsonValue)>, key: &str) -> (r: Result<Vec<u32>, MetadataError>)
    ensures
        r matches Ok(x) ==> required_u32_list(fields@, key@) == Some(x@),
        r is Err <==> required_u32_list(fields@, key@) is None,
        r matches Err(e) ==> e.names_field(fields@, key@),
{
    match find_member(fields, key) {
        Some(i) => match u32_list_of(&fields[i].1) {
            Some(x) => Ok(x),
            None => Err(MetadataError::InvalidType(String::from_str(key))),
        },
        None => Err(MetadataError::MissingField(String::from_str(key))),
    }
}

/// The strings one after another.
pub open spec fn joined(parts: Seq<Seq<char>>) -> Seq<char>
    decreases parts.len(),
{
    if parts.len() == 0 {
        Seq::empty()
    } else {
        joined(parts.drop_last()) + parts.last()
    }
}

/// The characters of `s` but its double quotes.
pub open spec fn unquoted(s: Seq<char>) -> Seq<char> {
    s.filter(|c: char| c != '"')
}

proof fn lemma_unquoted_push(s: Seq<char>, c: char)
    ensures
        unquoted(s.push(c)) == if c == '"' { unquoted(s) } else { unquoted(s).push(c) },
{
    reveal(Seq::filter);
    assert(s.push(c).drop_last() =~= s);
}

/// Appends the characters of `s` that are not double quotes.
fn push_unquoted(out: &mut String, s: &String)
    ensures
        final(out)@ == old(out)@ + unquoted(s@),
{
    let text = s.as_str();
    let n = text.unicode_len();
    let mut j: usize = 0;
    assert(s@.subrange(0, 0) =~= Seq::<char>::empty());
    proof {
        reveal(Seq::filter);
    }
    while j < n
        invariant
            n == s@.len(),
            text@ == s@,
            j <= n,
            out@ == old(out)@ + unquoted(s@.subrange(0, j as int)),
        decreases n - j,
    {
        let c = text.get_char(j);
        proof {
            lemma_unquoted_push(s@.subrange(0, j as int), c);
            assert(s@.subrange(0, j as int).push(c) =~= s@.subrange(0, j + 1));
        }
        if c != '"' {
            let one = text.substring_char(j, j + 1);
            assert(one@ =~= seq![c]);
            out.append(one);
            assert(out@ =~= old(out)@ + unquoted(s@.subrange(0, j + 1)));
        }
        j = j + 1;
    }
    assert(s@.subrange(0, n as int) =~= s@);
}

impl TritonMetadata {
    /// The target descriptors as one token: the JSON text of each entry, one
    /// after another, with every double quote removed.
    pub fn target(&self) -> (r: String)
        ensures
            r@ == unquoted(joined(texts(self.target@))),
    {
        let mut out = String::new();
        let mut i: usize = 0;
        proof {
            reveal(Seq::filter);
            assert(texts(self.target@).subrange(0, 0) =~= Seq::<Seq<char>>::empty());
        }
        while i < self.target.len()
            invariant
                i <= self.target@.len(),
                out@ == unquoted(joined(texts(self.target@).subrange(0, i as int))),
            decreases self.target@.len() - i,
        {
            push_unquoted(&mut out, &self.target[i]);
            proof {
                let parts = texts(self.target@);
                assert(parts.subrange(0, i + 1).drop_last() =~= parts.subrange(0, i as int));
                assert(parts.subrange(0, i + 1).last() == self.target@[i as int]@);
                Seq::filter_distributes_over_add(joined(parts.subrange(0, i as int)), self.target@[i as int]@, |c: char| c != '"');
            }
            i = i + 1;
        }
        assert(texts(self.target@).subrange(0, i as int) =~= texts(self.target@));
        out
    }
}

impl TritonMetadata {
    /// Decodes a metadata document. It succeeds exactly when the document is an
    /// object that fits the schema; members outside the schema are ignored.
    /// On failure the error names a field of the schema that does not fit.
    pub fn from_json(doc: &JsonValue) -> (r: Result<TritonMetadata, MetadataError>)
        ensures
            r is Ok <==> (doc matches JsonValue::Object(fields) && fits_schema(fields@)),
            r matches Ok(m) ==> (doc matches JsonValue::Object(fields) && decoded_from(m, fields@)),
            r matches Err(e) ==> match doc {
                JsonValue::Object(fields) => (e matches MetadataError::MissingField(k) && fails_at(fields@, k@)
                    && e.names_field(fields@, k@)) || (e matches MetadataError::InvalidType(k)
                    && fails_at(fields@, k@) && e.names_field(fields@, k@)),
                _ => e is NotAnObject,
            },
    {
        let fields = match doc {
            JsonValue::Object(f) => f,
            _ => {
                return Err(MetadataError::NotAnObject);
            },
        };
        let target = match read_required_rendered(fields, "target") {
            Ok(x) => x,
            Err(e) => {
                return Err(e);
            },
        };
        let num_warps = match read_required_u32(fields, "num_warps") {
            Ok(x) => x,
            Err(e) => {
                return Err(e);
            },
        };
        let num_ctas = match read_required_u32(fields, "num_ctas") {
            Ok(x) => x,
            Err(e) => {
                return Err(e);
            },
        };
        let num_stages = match read_required_u32(fields, "num_stages") {
            Ok(x) => x,
            Err(e) => {
                return Err(e);
            },
        };
        let cluster_dims = match read_required_u32_list(fields, "cluster_dims") {
            Ok(x) => x,
            Err(e) => {
                return Err(e);
            },
        };
        let ptx_version = match read_optional_u32(fields, "ptx_version") {
            Ok(x) => x,
            Err(e) => {
                return Err(e);
            },
        };
        let enable_warp_specialization = match read_required_bool(fields, "enable_warp_specialization") {
            Ok(x) => x,
            Err(e) => {
                return Err(e);
            },
        };
        let enable_persistent = match read_required_bool(fields, "enable_persistent") {
            Ok(x) => x,
            Err(e) => {
                return Err(e);
            },
        };
        let optimize_epilogue = match read_required_bool(fields, "optimize_epilogue") {
            Ok(x) => x,
            Err(e) => {
                return Err(e);
            },
        };
        let enable_fp_fusion = match read_required_bool(fields, "enable_fp_fusion") {
            Ok(x) => x,
            Err(e) => {
                return Err(e);
            },
        };
        let allow_fp8e4nv = match read_required_bool(fields, "allow_fp8e4nv") {
            Ok(x) => x,
            Err(e) => {
                return Err(e);
            },
        };
        let max_num_imprecise_acc_default = match read_required_u32(fields, "max_num_imprecise_acc_default") {
            Ok(x) => x,
            Err(e) => {
                return Err(e);
            },
        };
        let extern_libs = match read_optional_text_list(fields, "extern_libs") {
            Ok(x) => x,
            Err(e) => {
                return Err(e);
            },
        };
        let debug = match read_optional_bool(fields, "debug") {
            Ok(x) => x,
            Err(e) => {
                return Err(e);
            },
        };
        let AMDGCN_ENABLE_DUMP = match read_required_bool(fields, "AMDGCN_ENABLE_DUMP") {
            Ok(x) => x,
            Err(e) => {
                return Err(e);
            },
        };
        let DISABLE_FAST_REDUCTION = match read_required_bool(fields, "DISABLE_FAST_REDUCTION") {
            Ok(x) => x,
            Err(e) => {
                return Err(e);
            },
        };
        let DISABLE_MMA_V3 = match read_required_bool(fields, "DISABLE_MMA_V3") {
            Ok(x) => x,
            Err(e) => {
                return Err(e);
            },
        };
        let ENABLE_TMA = match read_required_bool(fields, "ENABLE_TMA") {
            Ok(x) => x,
            Err(e) => {
                return Err(e);
            },
        };
        let LLVM_IR_ENABLE_DUMP = match read_required_bool(fields, "LLVM_IR_ENABLE_DUMP") {
            Ok(x) => x,
            Err(e) => {
                return Err(e);
            },
        };
        let MLIR_ENABLE_DUMP = match read_required_bool(fields, "MLIR_ENABLE_DUMP") {
            Ok(x) => x,
            Err(e) => {
                return Err(e);
            },
        };
        let TRITON_DISABLE_LINE_INFO = match read_required_bool(fields, "TRITON_DISABLE_LINE_INFO") {
            Ok(x) => x,
            Err(e) => {
                return Err(e);
            },
        };
        let ids_of_folded_args = match read_required_u32_list(fields, "ids_of_folded_args") {
            Ok(x) => x,
            Err(e) => {
                return Err(e);
            },
        };
        let ids_of_tensormaps = match read_optional_u32_list(fields, "ids_of_tensormaps") {
            Ok(x) => x,
            Err(e) => {
                return Err(e);
            },
        };
        let shared = match read_required_u32(fields, "shared") {
            Ok(x) => x,
            Err(e) => {
                return Err(e);
            },
        };
        let name = match read_required_text(fields, "name") {
            Ok(x) => x,
            Err(e) => {
                return Err(e);
            },
        };
        Ok(TritonMetadata {
            target,
            num_warps,
            num_ctas,
            num_stages,
            cluster_dims,
            ptx_version,
            enable_warp_specialization,
            enable_persistent,
            optimize_epilogue,
            enable_fp_fusion,
            allow_fp8e4nv,
            max_num_imprecise_acc_default,
            extern_libs,
            debug,
            AMDGCN_ENABLE_DUMP,
            DISABLE_FAST_REDUCTION,
            DISABLE_MMA_V3,
            ENABLE_TMA,
            LLVM_IR_ENABLE_DUMP,
            MLIR_ENABLE_DUMP,
            TRITON_DISABLE_LINE_INFO,
            ids_of_folded_args,
            ids_of_tensormaps,
            shared,
            name,
        })
    }
}

} // verus!

verus! {

/// A field that the schema requires.
pub open spec fn is_required_key(key: Seq<char>) -> bool {
    ||| key == "target"@
    ||| key == "num_warps"@
    ||| key == "num_ctas"@
    ||| key == "num_stages"@
    ||| key == "cluster_dims"@
    ||| key == "enable_warp_specialization"@
    ||| key == "enable_persistent"@
    ||| key == "optimize_epilogue"@
    ||| key == "enable_fp_fusion"@
    ||| key == "allow_fp8e4nv"@
    ||| key == "max_num_imprecise_acc_default"@
    ||| key == "AMDGCN_ENABLE_DUMP"@
    ||| key == "DISABLE_FAST_REDUCTION"@
    ||| key == "DISABLE_MMA_V3"@
    ||| key == "ENABLE_TMA"@
    ||| key == "LLVM_IR_ENABLE_DUMP"@
    ||| key == "MLIR_ENABLE_DUMP"@
    ||| key == "TRITON_DISABLE_LINE_INFO"@
    ||| key == "ids_of_folded_args"@
    ||| key == "shared"@
    ||| key == "name"@
}

/// A field that the schema lets the document leave out.
pub open spec fn is_optional_key(key: Seq<char>) -> bool {
    ||| key == "ptx_version"@
    ||| key == "extern_libs"@
    ||| key == "debug"@
    ||| key == "ids_of_tensormaps"@
}

/// The members of an object but those named `key`.
pub open spec fn without_member(fields: Seq<(String, JsonValue)>, key: Seq<char>) -> Seq<(String, JsonValue)>
    decreases fields.len(),
{
    if fields.len() == 0 {
        fields
    } else if fields[0].0@ == key {
        without_member(fields.drop_first(), key)
    } else {
        seq![fields[0]] + without_member(fields.drop_first(), key)
    }
}

proof fn lemma_lookup_without(fields: Seq<(String, JsonValue)>, key: Seq<char>, other: Seq<char>)
    ensures
        lookup(without_member(fields, key), other) == if other == key {
            None
        } else {
            lookup(fields, other)
        },
    decreases fields.len(),
{
    if fields.len() > 0 {
        lemma_lookup_without(fields.drop_first(), key, other);
        if fields[0].0@ != key {
            let w = seq![fields[0]] + without_member(fields.drop_first(), key);
            assert(w.drop_first() =~= without_member(fields.drop_first(), key));
        }
    }
}

/// A document that lacks a required field does not fit the schema, and that
/// field is one that decoding may report as missing.
pub proof fn lemma_missing_required_field(fields: Seq<(String, JsonValue)>, key: Seq<char>)
    requires
        is_required_key(key),
        lookup(fields, key) is None,
    ensures
        !fits_schema(fields),
        fails_at(fields, key),
{
}

/// Leaving an optional field out of a document that fits the schema gives a
/// document that still fits, in which that field reads as absent.
pub proof fn lemma_optional_field_may_be_absent(fields: Seq<(String, JsonValue)>, key: Seq<char>)
    requires
        is_optional_key(key),
        fits_schema(fields),
    ensures
        fits_schema(without_member(fields, key)),
        lookup(without_member(fields, key), key) is None,
{
    reveal_strlit("target");
    reveal_strlit("num_warps");
    reveal_strlit("num_ctas");
    reveal_strlit("num_stages");
    reveal_strlit("cluster_dims");
    reveal_strlit("ptx_version");
    reveal_strlit("enable_warp_specialization");
    reveal_strlit("enable_persistent");
    reveal_strlit("optimize_epilogue");
    reveal_strlit("enable_fp_fusion");
    reveal_strlit("allow_fp8e4nv");
    reveal_strlit("max_num_imprecise_acc_default");
    reveal_strlit("extern_libs");
    reveal_strlit("debug");
    reveal_strlit("AMDGCN_ENABLE_DUMP");
    reveal_strlit("DISABLE_FAST_REDUCTION");
    reveal_strlit("DISABLE_MMA_V3");
    reveal_strlit("ENABLE_TMA");
    reveal_strlit("LLVM_IR_ENABLE_DUMP");
    reveal_strlit("MLIR_ENABLE_DUMP");
    reveal_strlit("TRITON_DISABLE_LINE_INFO");
    reveal_strlit("ids_of_folded_args");
    reveal_strlit("ids_of_tensormaps");
    reveal_strlit("shared");
    reveal_strlit("name");
    assert(key.len() == 5 || key.len() == 11 || key.len() == 17);
    assert(key.len() == 17 ==> key[0] == 'i');
    assert(!is_required_key(key));
    let w = without_member(fields, key);
    assert forall|other: Seq<char>| #[trigger] lookup(w, other) == (if other == key {
        None
    } else {
        lookup(fields, other)
    }) by {
        lemma_lookup_without(fields, key, other);
    }
}

} // verus!
