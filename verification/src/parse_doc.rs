//! Document assembly: the root element, its source-file list and space
//! table, and the public entry point.
//!
//! A parse accepts one complete document: the root tag, exactly one
//! source-file list, one space table and one symbol table, the matching
//! closing root tag, and nothing but whitespace after it.  The first
//! structural or encoding mismatch aborts the whole parse with a
//! positioned error; there is no recovery.

use vstd::prelude::*;
use crate::attrs::{
    bool_attr, dec_attr, hex_attr, opt_dec, opt_dec_attr, opt_hex, opt_hex_attr, req_bool,
    req_dec, req_hex, req_str, str_attr,
};
use crate::error::ParseError;
use crate::model::{
    AddrSpace, AddrSpaceType, AddrSpaceTypeV, AddrSpaceV, Sleigh, SleighV, SourceFile,
    SourceFileV, SourceFiles, SourceFilesV, Spaces, SpacesV, vec_view,
};
use crate::parse_sym::{p_symbol_table, sp_symbol_table};
use crate::scan::{
    Attr, AttrV, attrs_v, close_tag, elem_open, kw_at, lit_bytes, parsed, peek_tag, skip_ws,
    sp_close_tag, sp_elem_open, sp_peek_tag, sp_skip_ws,
};

verus! {

broadcast use vstd::seq::group_seq_axioms, vstd::std_specs::vec::group_vec_axioms;

// ---------------------------------------------------------------------
// Source files
// ---------------------------------------------------------------------

pub open spec fn sp_source_file(s: Seq<u8>, pos: int) -> Option<(SourceFileV, int)> {
    match sp_elem_open(s, pos) {
        Some((name, attrs, sc, p)) => if name == lit_bytes("sourcefile") && sc {
            match (str_attr(attrs, lit_bytes("name")), dec_attr(attrs, lit_bytes("index"))) {
                (Some(nm), Some(index)) => Some((SourceFileV { name: nm, index }, p)),
                _ => None,
            }
        } else {
            None
        },
        None => None,
    }
}

pub fn p_source_file(inp: &[u8], pos: usize) -> (r: Result<(SourceFile, usize), ParseError>)
    requires
        pos <= inp@.len(),
    ensures
        parsed(r, sp_source_file(inp@, pos as int), pos as int, inp@.len() as int),
{
    let el = elem_open(inp, pos)?;
    if !(kw_at(inp, el.ns, el.ne, "sourcefile".as_bytes()) && el.self_closed) {
        return Err(ParseError::malformed(el.ns));
    }
    let name = req_str(&el.attrs, "name".as_bytes(), el.ns)?;
    let index = req_dec(&el.attrs, "index".as_bytes(), el.ns)?;
    Ok((SourceFile { name, index }, el.after))
}

pub open spec fn sp_source_file_list(s: Seq<u8>, pos: int) -> Option<(Seq<SourceFileV>, int)>
    decreases s.len() - pos,
{
    match sp_peek_tag(s, pos) {
        Some((false, name, _)) => if name == lit_bytes("sourcefile") {
            match sp_source_file(s, pos) {
                Some((x, p2)) => if pos < p2 <= s.len() {
                    match sp_source_file_list(s, p2) {
                        Some((rest, end)) => Some((seq![x] + rest, end)),
                        None => None,
                    }
                } else {
                    None
                },
                None => None,
            }
        } else {
            Some((Seq::empty(), pos))
        },
        _ => Some((Seq::empty(), pos)),
    }
}

pub fn p_source_file_list(inp: &[u8], pos: usize) -> (r: Result<
    (Vec<SourceFile>, usize),
    ParseError,
>)
    requires
        pos <= inp@.len(),
    ensures
        match r {
            Ok((items, p)) => sp_source_file_list(inp@, pos as int) == Some(
                (vec_view(items@), p as int),
            ) && pos <= p <= inp@.len(),
            Err(_) => sp_source_file_list(inp@, pos as int) is None,
        },
{
    let mut items: Vec<SourceFile> = Vec::new();
    let mut cur: usize = pos;
    loop
        invariant
            pos <= cur <= inp@.len(),
            sp_source_file_list(inp@, pos as int) == match sp_source_file_list(inp@, cur as int) {
                Some((rest, end)) => Some::<(Seq<SourceFileV>, int)>(
                    (vec_view(items@) + rest, end),
                ),
                None => None::<(Seq<SourceFileV>, int)>,
            },
        decreases inp@.len() - cur,
    {
        let stop: bool = match peek_tag(inp, cur) {
            Ok(pk) => pk.is_close || !kw_at(inp, pk.ns, pk.ne, "sourcefile".as_bytes()),
            Err(_) => true,
        };
        if stop {
            proof {
                assert(vec_view(items@) + Seq::<SourceFileV>::empty() =~= vec_view(items@));
            }
            return Ok((items, cur));
        }
        let (x, p2) = p_source_file(inp, cur)?;
        let ghost pre = items@;
        items.push(x);
        cur = p2;
        proof {
            assert(vec_view(items@) =~= vec_view(pre) + seq![x@]);
            match sp_source_file_list(inp@, cur as int) {
                Some((rest, end)) => {
                    assert(vec_view(pre) + (seq![x@] + rest) =~= (vec_view(pre) + seq![x@])
                        + rest);
                },
                None => {},
            }
        }
    }
}

pub open spec fn sp_source_files(s: Seq<u8>, pos: int) -> Option<(SourceFilesV, int)> {
    match sp_elem_open(s, pos) {
        Some((name, attrs, sc, p1)) => if name == lit_bytes("sourcefiles") && !sc {
            match sp_source_file_list(s, p1) {
                Some((source_files, p2)) => match sp_close_tag(s, p2, lit_bytes("sourcefiles")) {
                    Some(p3) => Some((SourceFilesV { source_files }, p3)),
                    None => None,
                },
                None => None,
            }
        } else {
            None
        },
        None => None,
    }
}

pub fn p_source_files(inp: &[u8], pos: usize) -> (r: Result<(SourceFiles, usize), ParseError>)
    requires
        pos <= inp@.len(),
    ensures
        parsed(r, sp_source_files(inp@, pos as int), pos as int, inp@.len() as int),
{
    let el = elem_open(inp, pos)?;
    if !(kw_at(inp, el.ns, el.ne, "sourcefiles".as_bytes()) && !el.self_closed) {
        return Err(ParseError::malformed(el.ns));
    }
    let (source_files, p2) = p_source_file_list(inp, el.after)?;
    let p3 = close_tag(inp, p2, "sourcefiles".as_bytes())?;
    Ok((SourceFiles { source_files }, p3))
}

// ---------------------------------------------------------------------
// Address spaces
// ---------------------------------------------------------------------

/// The attributes shared by every address-space variant.
pub open spec fn space_attrs(attrs: Seq<AttrV>) -> Option<AddrSpaceV> {
    match (
        str_attr(attrs, lit_bytes("name")),
        dec_attr(attrs, lit_bytes("index")),
        bool_attr(attrs, lit_bytes("bigendian")),
        dec_attr(attrs, lit_bytes("delay")),
        opt_dec_attr(attrs, lit_bytes("deadcodedelay")),
        dec_attr(attrs, lit_bytes("size")),
        opt_dec_attr(attrs, lit_bytes("wordsize")),
        bool_attr(attrs, lit_bytes("physical")),
    ) {
        (
            Some(name),
            Some(index),
            Some(bigendian),
            Some(delay),
            Some(deadcodedelay),
            Some(size),
            Some(wordsize),
            Some(physical),
        ) => Some(
            AddrSpaceV {
                name,
                index,
                bigendian,
                delay,
                deadcodedelay,
                size,
                wordsize,
                physical,
            },
        ),
        _ => None,
    }
}

/// Decode the shared address-space attributes.
pub fn p_space_attrs(attrs: &Vec<Attr>, pos: usize) -> (r: Result<AddrSpace, ParseError>)
    ensures
        match r {
            Ok(a) => space_attrs(attrs_v(attrs@)) == Some(a@),
            Err(_) => space_attrs(attrs_v(attrs@)) is None,
        },
{
    let name = req_str(attrs, "name".as_bytes(), pos)?;
    let index = req_dec(attrs, "index".as_bytes(), pos)?;
    let bigendian = req_bool(attrs, "bigendian".as_bytes(), pos)?;
    let delay = req_dec(attrs, "delay".as_bytes(), pos)?;
    let deadcodedelay = opt_dec(attrs, "deadcodedelay".as_bytes())?;
    let size = req_dec(attrs, "size".as_bytes(), pos)?;
    let wordsize = opt_dec(attrs, "wordsize".as_bytes())?;
    let physical = req_bool(attrs, "physical".as_bytes(), pos)?;
    Ok(AddrSpace { name, index, bigendian, delay, deadcodedelay, size, wordsize, physical })
}

/// A self-closing space element of the given tag.
pub open spec fn sp_space_elem(s: Seq<u8>, pos: int, tag: Seq<u8>) -> Option<(AddrSpaceV, int)> {
    match sp_elem_open(s, pos) {
        Some((name, attrs, sc, p)) => if name == tag && sc {
            match space_attrs(attrs) {
                Some(a) => Some((a, p)),
                None => None,
            }
        } else {
            None
        },
        None => None,
    }
}

pub fn p_space_elem(inp: &[u8], pos: usize, kw: &[u8]) -> (r: Result<
    (AddrSpace, usize),
    ParseError,
>)
    requires
        pos <= inp@.len(),
    ensures
        match r {
            Ok((a, p)) => sp_space_elem(inp@, pos as int, kw@) == Some((a@, p as int)) && pos < p
                <= inp@.len(),
            Err(_) => sp_space_elem(inp@, pos as int, kw@) is None,
        },
{
    let el = elem_open(inp, pos)?;
    if !(kw_at(inp, el.ns, el.ne, kw) && el.self_closed) {
        return Err(ParseError::malformed(el.ns));
    }
    let a = p_space_attrs(&el.attrs, el.ns)?;
    Ok((a, el.after))
}

/// The tags of the address-space vocabulary.
pub open spec fn is_space_tag(name: Seq<u8>) -> bool {
    ||| name == lit_bytes("space_base")
    ||| name == lit_bytes("space_unique")
    ||| name == lit_bytes("space_other")
    ||| name == lit_bytes("space_overlay")
    ||| name == lit_bytes("space")
}

pub open spec fn sp_addr_space(s: Seq<u8>, pos: int) -> Option<(AddrSpaceTypeV, int)> {
    match sp_peek_tag(s, pos) {
        Some((false, name, _)) => if name == lit_bytes("space_base") {
            match sp_space_elem(s, pos, name) {
                Some((a, p)) => Some((AddrSpaceTypeV::Base(a), p)),
                None => None,
            }
        } else if name == lit_bytes("space_unique") {
            match sp_space_elem(s, pos, name) {
                Some((a, p)) => Some((AddrSpaceTypeV::Unique(a), p)),
                None => None,
            }
        } else if name == lit_bytes("space_other") {
            match sp_space_elem(s, pos, name) {
                Some((a, p)) => Some((AddrSpaceTypeV::Other(a), p)),
                None => None,
            }
        } else if name == lit_bytes("space_overlay") {
            match sp_space_elem(s, pos, name) {
                Some((a, p)) => Some((AddrSpaceTypeV::Overlay(a), p)),
                None => None,
            }
        } else if name == lit_bytes("space") {
            match sp_space_elem(s, pos, name) {
                Some((a, p)) => Some((AddrSpaceTypeV::Space(a), p)),
                None => None,
            }
        } else {
            None
        },
        _ => None,
    }
}

pub fn p_addr_space(inp: &[u8], pos: usize) -> (r: Result<(AddrSpaceType, usize), ParseError>)
    requires
        pos <= inp@.len(),
    ensures
        parsed(r, sp_addr_space(inp@, pos as int), pos as int, inp@.len() as int),
{
    let pk = peek_tag(inp, pos)?;
    if pk.is_close {
        return Err(ParseError::malformed(pk.ns));
    }
    if kw_at(inp, pk.ns, pk.ne, "space_base".as_bytes()) {
        let (space, p) = p_space_elem(inp, pos, "space_base".as_bytes())?;
        Ok((AddrSpaceType::Base { space }, p))
    } else if kw_at(inp, pk.ns, pk.ne, "space_unique".as_bytes()) {
        let (space, p) = p_space_elem(inp, pos, "space_unique".as_bytes())?;
        Ok((AddrSpaceType::Unique { space }, p))
    } else if kw_at(inp, pk.ns, pk.ne, "space_other".as_bytes()) {
        let (space, p) = p_space_elem(inp, pos, "space_other".as_bytes())?;
        Ok((AddrSpaceType::Other { space }, p))
    } else if kw_at(inp, pk.ns, pk.ne, "space_overlay".as_bytes()) {
        let (space, p) = p_space_elem(inp, pos, "space_overlay".as_bytes())?;
        Ok((AddrSpaceType::Overlay { space }, p))
    } else if kw_at(inp, pk.ns, pk.ne, "space".as_bytes()) {
        let (space, p) = p_space_elem(inp, pos, "space".as_bytes())?;
        Ok((AddrSpaceType::Space { space }, p))
    } else {
        Err(ParseError::malformed(pk.ns))
    }
}

/// Whether the peeked open tag is one of the space tags.
fn space_tag_at(inp: &[u8], ns: usize, ne: usize) -> (r: bool)
    requires
        ns <= ne <= inp@.len(),
    ensures
        r == is_space_tag(inp@.subrange(ns as int, ne as int)),
{
    kw_at(inp, ns, ne, "space_base".as_bytes()) || kw_at(inp, ns, ne, "space_unique".as_bytes())
        || kw_at(inp, ns, ne, "space_other".as_bytes()) || kw_at(
        inp,
        ns,
        ne,
        "space_overlay".as_bytes(),
    ) || kw_at(inp, ns, ne, "space".as_bytes())
}

pub open spec fn sp_space_list(s: Seq<u8>, pos: int) -> Option<(Seq<AddrSpaceTypeV>, int)>
    decreases s.len() - pos,
{
    match sp_peek_tag(s, pos) {
        Some((false, name, _)) => if is_space_tag(name) {
            match sp_addr_space(s, pos) {
                Some((x, p2)) => if pos < p2 <= s.len() {
                    match sp_space_list(s, p2) {
                        Some((rest, end)) => Some((seq![x] + rest, end)),
                        None => None,
                    }
                } else {
                    None
                },
                None => None,
            }
        } else {
            Some((Seq::empty(), pos))
        },
        _ => Some((Seq::empty(), pos)),
    }
}

pub fn p_space_list(inp: &[u8], pos: usize) -> (r: Result<
    (Vec<AddrSpaceType>, usize),
    ParseError,
>)
    requires
        pos <= inp@.len(),
    ensures
        match r {
            Ok((items, p)) => sp_space_list(inp@, pos as int) == Some(
                (vec_view(items@), p as int),
            ) && pos <= p <= inp@.len(),
            Err(_) => sp_space_list(inp@, pos as int) is None,
        },
{
    let mut items: Vec<AddrSpaceType> = Vec::new();
    let mut cur: usize = pos;
    loop
        invariant
            pos <= cur <= inp@.len(),
            sp_space_list(inp@, pos as int) == match sp_space_list(inp@, cur as int) {
                Some((rest, end)) => Some::<(Seq<AddrSpaceTypeV>, int)>(
                    (vec_view(items@) + rest, end),
                ),
                None => None::<(Seq<AddrSpaceTypeV>, int)>,
            },
        decreases inp@.len() - cur,
    {
        let stop: bool = match peek_tag(inp, cur) {
            Ok(pk) => pk.is_close || !space_tag_at(inp, pk.ns, pk.ne),
            Err(_) => true,
        };
        if stop {
            proof {
                assert(vec_view(items@) + Seq::<AddrSpaceTypeV>::empty() =~= vec_view(items@));
            }
            return Ok((items, cur));
        }
        let (x, p2) = p_addr_space(inp, cur)?;
        let ghost pre = items@;
        items.push(x);
        cur = p2;
        proof {
            assert(vec_view(items@) =~= vec_view(pre) + seq![x@]);
            match sp_space_list(inp@, cur as int) {
                Some((rest, end)) => {
                    assert(vec_view(pre) + (seq![x@] + rest) =~= (vec_view(pre) + seq![x@])
                        + rest);
                },
                None => {},
            }
        }
    }
}

pub open spec fn sp_spaces(s: Seq<u8>, pos: int) -> Option<(SpacesV, int)> {
    match sp_elem_open(s, pos) {
        Some((name, attrs, sc, p1)) => if name == lit_bytes("spaces") && !sc {
            match str_attr(attrs, lit_bytes("defaultspace")) {
                Some(defaultspace) => match sp_space_list(s, p1) {
                    Some((spaces, p2)) => match sp_close_tag(s, p2, lit_bytes("spaces")) {
                        Some(p3) => Some((SpacesV { defaultspace, spaces }, p3)),
                        None => None,
                    },
                    None => None,
                },
                None => None,
            }
        } else {
            None
        },
        None => None,
    }
}

pub fn p_spaces(inp: &[u8], pos: usize) -> (r: Result<(Spaces, usize), ParseError>)
    requires
        pos <= inp@.len(),
    ensures
        parsed(r, sp_spaces(inp@, pos as int), pos as int, inp@.len() as int),
{
    let el = elem_open(inp, pos)?;
    if !(kw_at(inp, el.ns, el.ne, "spaces".as_bytes()) && !el.self_closed) {
        return Err(ParseError::malformed(el.ns));
    }
    let defaultspace = req_str(&el.attrs, "defaultspace".as_bytes(), el.ns)?;
    let (spaces, p2) = p_space_list(inp, el.after)?;
    let p3 = close_tag(inp, p2, "spaces".as_bytes())?;
    Ok((Spaces { defaultspace, spaces }, p3))
}

// ---------------------------------------------------------------------
// The root element and the entry point
// ---------------------------------------------------------------------

pub open spec fn sp_sleigh(s: Seq<u8>, pos: int) -> Option<(SleighV, int)> {
    match sp_elem_open(s, pos) {
        Some((name, attrs, sc, p1)) => if name == lit_bytes("sleigh") && !sc {
            match (
                opt_dec_attr(attrs, lit_bytes("version")),
                bool_attr(attrs, lit_bytes("bigendian")),
                dec_attr(attrs, lit_bytes("align")),
                hex_attr(attrs, lit_bytes("uniqbase")),
                opt_hex_attr(attrs, lit_bytes("maxdelay")),
                opt_hex_attr(attrs, lit_bytes("uniqmask")),
                opt_hex_attr(attrs, lit_bytes("numsections")),
            ) {
                (
                    Some(version),
                    Some(bigendian),
                    Some(align),
                    Some(uniqbase),
                    Some(maxdelay),
                    Some(uniqmask),
                    Some(numsections),
                ) => match sp_source_files(s, p1) {
                    Some((sourcefiles, p2)) => match sp_spaces(s, p2) {
                        Some((spaces, p3)) => match sp_symbol_table(s, p3) {
                            Some((symbol_table, p4)) => match sp_close_tag(
                                s,
                                p4,
                                lit_bytes("sleigh"),
                            ) {
                                Some(p5) => Some(
                                    (
                                        SleighV {
                                            version,
                                            bigendian,
                                            align,
                                            uniqbase,
                                            maxdelay,
                                            uniqmask,
                                            numsections,
                                            sourcefiles,
                                            spaces,
                                            symbol_table,
                                        },
                                        p5,
                                    ),
                                ),
                                None => None,
                            },
                            None => None,
                        },
                        None => None,
                    },
                    None => None,
                },
                _ => None,
            }
        } else {
            None
        },
        None => None,
    }
}

#[verifier::rlimit(50)]
pub fn p_sleigh(inp: &[u8], pos: usize) -> (r: Result<(Sleigh, usize), ParseError>)
    requires
        pos <= inp@.len(),
    ensures
        parsed(r, sp_sleigh(inp@, pos as int), pos as int, inp@.len() as int),
{
    let el = elem_open(inp, pos)?;
    if !(kw_at(inp, el.ns, el.ne, "sleigh".as_bytes()) && !el.self_closed) {
        return Err(ParseError::malformed(el.ns));
    }
    let version = opt_dec(&el.attrs, "version".as_bytes())?;
    let bigendian = req_bool(&el.attrs, "bigendian".as_bytes(), el.ns)?;
    let align = req_dec(&el.attrs, "align".as_bytes(), el.ns)?;
    let uniqbase = req_hex(&el.attrs, "uniqbase".as_bytes(), el.ns)?;
    let maxdelay = opt_hex(&el.attrs, "maxdelay".as_bytes())?;
    let uniqmask = opt_hex(&el.attrs, "uniqmask".as_bytes())?;
    let numsections = opt_hex(&el.attrs, "numsections".as_bytes())?;
    let (sourcefiles, p2) = p_source_files(inp, el.after)?;
    let (spaces, p3) = p_spaces(inp, p2)?;
    let (symbol_table, p4) = p_symbol_table(inp, p3)?;
    let p5 = close_tag(inp, p4, "sleigh".as_bytes())?;
    Ok(
        (
            Sleigh {
                version,
                bigendian,
                align,
                uniqbase,
                maxdelay,
                uniqmask,
                numsections,
                sourcefiles,
                spaces,
                symbol_table,
            },
            p5,
        ),
    )
}

/// The document grammar: one root element, then nothing but whitespace.
pub open spec fn sp_parse(s: Seq<u8>) -> Option<SleighV> {
    match sp_sleigh(s, 0) {
        Some((doc, p)) => if sp_skip_ws(s, p) == s.len() {
            Some(doc)
        } else {
            None
        },
        None => None,
    }
}

/// Parse one complete document.
///
/// Returns the document tree exactly when the input matches the
/// grammar ([`sp_parse`]); otherwise returns the first error
/// encountered, with its byte offset.
pub fn parse(data: &[u8]) -> (r: Result<Sleigh, ParseError>)
    ensures
        match r {
            Ok(doc) => sp_parse(data@) == Some(doc@),
            Err(_) => sp_parse(data@) is None,
        },
{
    let (doc, p) = p_sleigh(data, 0)?;
    let q = skip_ws(data, p);
    if q != data.len() {
        return Err(ParseError::malformed(q));
    }
    Ok(doc)
}

} // verus!
