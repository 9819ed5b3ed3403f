//! A JavaScript source file: the bytes it was read from and the module
//! that swc's parser makes of them.
//!
//! A file exists only for bytes that are UTF-8 and parse as an ECMAScript
//! module; the parsing itself is swc's.
use swc_core::common::sync::Lrc;
use swc_core::common::{FileName, SourceMap};
use swc_core::ecma::ast::EsVersion;
use swc_core::ecma::codegen::text_writer::JsWriter;
use swc_core::ecma::codegen::{Config, Emitter};
use swc_core::ecma::parser::lexer::Lexer;
use swc_core::ecma::parser::{Parser, StringInput, Syntax};
use vstd::prelude::*;
use vstd::utf8::{decode_utf8, valid_utf8};

verus! {

#[verifier::external_type_specification]
#[verifier::external_body]
pub struct ExModule(swc_core::ecma::ast::Module);

#[verifier::external_type_specification]
#[verifier::external_body]
pub struct ExSourceMap(SourceMap);

/// Whether swc's parser, with the default ECMAScript syntax and the latest
/// language version, accepts the text `src` as a module.
pub uninterp spec fn parses_as_module(src: Seq<char>) -> bool;

/// The bytes `bytes` are UTF-8 and the text they encode parses as a module.
pub open spec fn source_parses(bytes: Seq<u8>) -> bool {
    valid_utf8(bytes) && parses_as_module(decode_utf8(bytes))
}

/// `String::from_utf8`: succeeds exactly on UTF-8 bytes, and then holds the
/// characters they encode.
#[verifier::external_body]
fn decode_source(bytes: Vec<u8>) -> (r: Option<String>)
    ensures
        r is Some <==> valid_utf8(bytes@),
        r is Some ==> r->Some_0@ == decode_utf8(bytes@),
{
    match String::from_utf8(bytes) {
        Ok(s) => Some(s),
        Err(_) => None,
    }
}

/// A new, empty swc `SourceMap` (its `Default`); nothing is stated of it.
#[verifier::external_body]
fn new_source_map() -> Lrc<SourceMap> {
    Lrc::new(SourceMap::default())
}

/// An empty swc `Module` (its `Default`); nothing is stated of it.
#[verifier::external_body]
fn empty_module() -> swc_core::ecma::ast::Module {
    swc_core::ecma::ast::Module::default()
}

/// Adds `src` to the source map `cm` as a new file and runs swc's
/// `Parser::parse_module` on it, with the default ECMAScript syntax and the
/// latest language version. Stated: the parse succeeds exactly when
/// `parses_as_module` holds of the text. Not stated: the module itself,
/// which is opaque here.
#[verifier::external_body]
fn parse_module_source(cm: &Lrc<SourceMap>, src: String) -> (r: Option<swc_core::ecma::ast::Module>)
    ensures
        r is Some <==> parses_as_module(src@),
{
    let fm = cm.new_source_file(Lrc::new(FileName::Custom("file.js".to_string())), src);
    let lexer = Lexer::new(Syntax::Es(Default::default()), EsVersion::latest(), StringInput::from(&*fm), None);
    let mut parser = Parser::new_from(lexer);
    match parser.parse_module() {
        Ok(module) => Some(module),
        Err(_) => None,
    }
}

/// Prints `module` with swc's `Emitter::emit_module` and a `JsWriter` into
/// a byte buffer, with the default configuration and `\n` line ends. Not
/// stated: the bytes, which are swc's printing of an opaque module.
#[verifier::external_body]
fn emit_module_source(cm: &Lrc<SourceMap>, module: &swc_core::ecma::ast::Module) -> (r: Option<Vec<u8>>) {
    let mut buf = Vec::new();
    let ok = {
        let writer = JsWriter::new(cm.clone(), "\n", &mut buf, None);
        let mut emitter = Emitter { cfg: Config::default(), cm: cm.clone(), comments: None, wr: writer };
        emitter.emit_module(module).is_ok()
    };
    if ok { Some(buf) } else { None }
}

/// A parsed JavaScript file.
pub struct JavaScriptFile {
    script_data: Vec<u8>,
    cm: Lrc<SourceMap>,
    module: swc_core::ecma::ast::Module,
}

impl JavaScriptFile {
    /// The bytes the file was made from.
    pub closed spec fn source(&self) -> Seq<u8> {
        self.script_data@
    }

    /// Makes a file of `script_data`: `None` when the bytes are not UTF-8
    /// or do not parse as a module.
    pub fn new(script_data: &Vec<u8>) -> (r: Option<JavaScriptFile>)
        ensures
            r is Some <==> source_parses(script_data@),
            r is Some ==> r->Some_0.source() == script_data@,
    {
        let mut script = JavaScriptFile { script_data: script_data.clone(), cm: new_source_map(), module: empty_module() };
        if !script.parse() {
            return None;
        }
        Some(script)
    }

    /// Decodes the file's bytes and parses them, keeping the module on
    /// success.
    fn parse(&mut self) -> (ok: bool)
        ensures
            ok <==> source_parses(old(self).script_data@),
            final(self).script_data@ == old(self).script_data@,
    {
        match decode_source(self.script_data.clone()) {
            Some(src_string) => match parse_module_source(&self.cm, src_string) {
                Some(module) => {
                    self.module = module;
                    true
                },
                None => false,
            },
            None => false,
        }
    }

    /// Prints the file's module back to source text with swc's printer; the
    /// file (its bytes, source map and module) is left as it was.
    fn emit(&mut self) -> (r: Option<Vec<u8>>)
        ensures
            *final(self) == *old(self),
    {
        emit_module_source(&self.cm, &self.module)
    }
}

} // verus!
