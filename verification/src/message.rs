use vstd::prelude::*;
use vstd::slice::{slice_subrange, slice_to_vec};
use crate::error::GribError;
use crate::sections::indicator::{indicator_valid, IndicatorSection};
use crate::data_decoding::{
    bitmap_bits_of, dense_values_spec, expand_with_bitmap, unpack_simple_values,
};
use crate::sections::data_representation::DataRepresentationTemplate;
use crate::sections::section::{
    end_marker_at, find_first_section, find_section, section_from_payload, section_min_len,
    section_min_len_of, EndSection, Section,
};
use crate::utils::{
    be_bytes_to_nat, lemma_be_bytes_bound, lemma_be_bytes_subrange, pow256, read_u32_from_bytes,
    read_u64_from_bytes,
};

verus! {

/// The total message length declared by the indicator section that starts
/// at `offset`.
pub open spec fn declared_length(s: Seq<u8>, offset: int) -> nat {
    be_bytes_to_nat(s, offset + 8, 8)
}

/// True when the four magic marker bytes stand at `pos`.
pub open spec fn magic_at(s: Seq<u8>, pos: int) -> bool {
    &&& pos + 4 <= s.len()
    &&& s[pos] == 0x47u8
    &&& s[pos + 1] == 0x52u8
    &&& s[pos + 2] == 0x49u8
    &&& s[pos + 3] == 0x42u8
}

/// True when the bytes of `msg` from `pos` to the end split into whole
/// sections followed by the end marker: each section declares a length
/// that stays inside the message and is enough for its own kind, and
/// carries a known section number.
pub open spec fn sections_ok_from(msg: Seq<u8>, pos: int) -> bool
    decreases msg.len() - pos,
    when 0 <= pos <= msg.len()
{
    if msg.len() - pos == 4 {
        end_marker_at(msg, pos)
    } else if msg.len() - pos < 9 {
        false
    } else {
        let sec_len = be_bytes_to_nat(msg, pos, 4) as int;
        let sec_num = msg[pos + 4];
        if 1 <= sec_num <= 7 && section_min_len(sec_num) <= sec_len && pos + sec_len + 4
            <= msg.len() {
            sections_ok_from(msg, pos + sec_len)
        } else {
            false
        }
    }
}

/// How many sections, the end marker included, lie between `pos` and the
/// end of `msg`.
pub open spec fn section_count_from(msg: Seq<u8>, pos: int) -> int
    decreases msg.len() - pos,
    when 0 <= pos <= msg.len()
{
    if msg.len() - pos == 4 {
        1
    } else if msg.len() - pos < 9 {
        0
    } else {
        let sec_len = be_bytes_to_nat(msg, pos, 4) as int;
        let sec_num = msg[pos + 4];
        if 1 <= sec_num <= 7 && section_min_len(sec_num) <= sec_len && pos + sec_len + 4
            <= msg.len() {
            1 + section_count_from(msg, pos + sec_len)
        } else {
            0
        }
    }
}

/// True when `msg` is one whole well-formed message: it opens with a valid
/// indicator whose declared total length is exactly the bytes that are
/// there, and the rest splits into whole sections ending at the end
/// marker.
pub open spec fn valid_message(msg: Seq<u8>) -> bool {
    &&& msg.len() >= 20
    &&& indicator_valid(msg)
    &&& declared_length(msg, 0) == msg.len()
    &&& sections_ok_from(msg, 16)
}

/// True when one whole well-formed message lies at `offset` of `s`.
pub open spec fn parseable_at(s: Seq<u8>, offset: int) -> bool {
    &&& 0 <= offset
    &&& offset + 16 <= s.len()
    &&& 20 <= declared_length(s, offset)
    &&& offset + declared_length(s, offset) <= s.len()
    &&& valid_message(s.subrange(offset, offset + declared_length(s, offset)))
}

/// The concatenation of the byte ranges that a run of sections is a view
/// of.
pub open spec fn sections_bytes(ss: Seq<Section>) -> Seq<u8>
    decreases ss.len(),
{
    if ss.len() == 0 {
        Seq::empty()
    } else {
        sections_bytes(ss.drop_last()) + ss.last().bytes()
    }
}

proof fn lemma_sections_bytes_push(ss: Seq<Section>, s: Section)
    ensures
        sections_bytes(ss.push(s)) == sections_bytes(ss) + s.bytes(),
{
    assert(ss.push(s).drop_last() =~= ss);
}

/// One self-contained, length-framed message: its bytes, and the ordered
/// run of sections that are views into those bytes.
pub struct Message {
    pub data: Vec<u8>,
    pub sections: Vec<Section>,
}

impl View for Message {
    type V = Seq<u8>;

    open spec fn view(&self) -> Seq<u8> {
        self.data@
    }
}

impl Message {
    /// What parsing guarantees of every message it returns: the bytes are
    /// one whole well-formed message, the sections tile those bytes
    /// exactly, the first is the indicator and the last is the end marker.
    pub open spec fn wf(&self) -> bool {
        &&& valid_message(self@)
        &&& self.sections@.len() == 1 + section_count_from(self@, 16)
        &&& self.sections@.len() >= 2
        &&& self.sections@[0] is Indicator
        &&& self.sections@[0].bytes() == self@.subrange(0, 16)
        &&& self.sections@.last() is End
        &&& sections_bytes(self.sections@) == self@
    }

    /// The total length the message's indicator declares; for a parsed
    /// message this is exactly the number of bytes the message holds.
    pub fn total_length(&self) -> (r: u64)
        ensures
            self@.len() >= 16 ==> r as nat == declared_length(self@, 0),
            self@.len() < 16 ==> r == 0,
    {
        proof {
            lemma_be_bytes_bound(self@, 8, 8);
            assert(pow256(8) == 0x1_0000_0000_0000_0000) by {
                reveal_with_fuel(pow256, 9);
            }
        }
        match read_u64_from_bytes(self.data.as_slice(), 8) {
            Some(v) => v,
            None => 0,
        }
    }

    /// How many sections the message holds.
    pub fn section_count(&self) -> (r: usize)
        ensures
            r == self.sections@.len(),
    {
        self.sections.len()
    }

    /// Parses exactly one message at a known offset. Succeeds when and only
    /// when one whole well-formed message lies there; the returned message
    /// is a view of exactly the bytes the indicator's declared total length
    /// names, so re-slicing that many bytes at `offset` reproduces the
    /// consumed range.
    pub fn parse(data: &[u8], offset: usize) -> (r: Result<Message, GribError>)
        ensures
            r is Ok <==> parseable_at(data@, offset as int),
            r matches Ok(m) ==> {
                &&& m@ == data@.subrange(
                    offset as int,
                    offset + declared_length(data@, offset as int),
                )
                &&& m@.len() == declared_length(data@, offset as int)
                &&& m.wf()
            },
    {
        let data_len: usize = data.len();
        if data_len < 16 || offset > data_len - 16 {
            return Err(GribError::Malformed(offset, "no room for an indicator section"));
        }
        let indicator = IndicatorSection::from_data(data, offset);
        if !indicator.valid() {
            proof {
                if parseable_at(data@, offset as int) {
                    let sub = data@.subrange(
                        offset as int,
                        offset + declared_length(data@, offset as int),
                    );
                    assert(sub[0] == data@[offset as int]);
                    assert(sub[1] == data@[offset as int + 1]);
                    assert(sub[2] == data@[offset as int + 2]);
                    assert(sub[3] == data@[offset as int + 3]);
                }
            }
            return Err(GribError::Malformed(offset, "magic marker absent"));
        }
        let total = indicator.total_length();
        proof {
            lemma_be_bytes_subrange(data@, offset as int, offset as int + 16, 8, 8);
        }
        if total < 20 {
            return Err(GribError::Malformed(offset, "declared message length too small"));
        }
        if total > (data_len - offset) as u64 {
            return Err(
                GribError::Malformed(offset, "declared message length overruns the buffer"),
            );
        }
        let total_usize = total as usize;
        let msg_slice = slice_subrange(data, offset, offset + total_usize);
        let msg_data: Vec<u8> = slice_to_vec(msg_slice);
        let msg_len = msg_data.len();
        proof {
            lemma_be_bytes_subrange(data@, offset as int, offset as int + total_usize as int, 8, 8);
        }
        let mut sections: Vec<Section> = Vec::new();
        sections.push(Section::Indicator(IndicatorSection::from_data(msg_data.as_slice(), 0)));
        proof {
            assert(sections@.drop_last() =~= Seq::<Section>::empty());
            assert(sections_bytes(Seq::<Section>::empty()) =~= Seq::<u8>::empty());
            assert(sections@.last().bytes() == msg_data@.subrange(0, 16));
            assert(sections_bytes(sections@) =~= msg_data@.subrange(0, 16));
        }
        let mut pos: usize = 16;
        loop
            invariant
                16 <= pos <= msg_len,
                msg_len == msg_data@.len(),
                msg_len == total_usize,
                data_len == data@.len(),
                offset + msg_len <= data_len,
                msg_data@ == data@.subrange(offset as int, offset as int + msg_len),
                msg_len as nat == declared_length(data@, offset as int),
                msg_len >= 20,
                indicator_valid(msg_data@),
                declared_length(msg_data@, 0) == msg_len as nat,
                sections@.len() >= 1,
                sections@[0] is Indicator,
                sections@[0].bytes() == msg_data@.subrange(0, 16),
                sections_bytes(sections@) == msg_data@.subrange(0, pos as int),
                sections_ok_from(msg_data@, 16) <==> sections_ok_from(msg_data@, pos as int),
                section_count_from(msg_data@, 16) == sections@.len() - 1 + section_count_from(
                    msg_data@,
                    pos as int,
                ),
            decreases msg_len - pos,
        {
            if msg_len - pos == 4 {
                if msg_data[pos] == 0x37 && msg_data[pos + 1] == 0x37 && msg_data[pos + 2] == 0x37
                    && msg_data[pos + 3] == 0x37 {
                    let end_bytes = slice_to_vec(
                        slice_subrange(msg_data.as_slice(), pos, pos + 4),
                    );
                    let end = EndSection::from_data(end_bytes);
                    let ghost prior = sections@;
                    sections.push(Section::End(end));
                    proof {
                        lemma_sections_bytes_push(prior, Section::End(end));
                        assert(msg_data@.subrange(0, pos as int) + msg_data@.subrange(
                            pos as int,
                            pos + 4,
                        ) =~= msg_data@.subrange(0, msg_len as int));
                        assert(msg_data@.subrange(0, msg_len as int) =~= msg_data@);
                    }
                    return Ok(Message { data: msg_data, sections });
                } else {
                    return Err(GribError::Malformed(offset + pos, "terminator absent"));
                }
            } else if msg_len - pos < 9 {
                return Err(GribError::Malformed(offset + pos, "truncated section header"));
            } else {
                let sec_len32 = match read_u32_from_bytes(msg_data.as_slice(), pos) {
                    Some(v) => v,
                    None => 0,
                };
                proof {
                    lemma_be_bytes_bound(msg_data@, pos as int, 4);
                    assert(pow256(4) == 0x1_0000_0000) by {
                        reveal_with_fuel(pow256, 5);
                    }
                }
                let sec_num = msg_data[pos + 4];
                let sec_len = sec_len32 as usize;
                if sec_num < 1 || sec_num > 7 {
                    return Err(GribError::UnsupportedSectionNumber(offset + pos, sec_num));
                }
                let min_len = section_min_len_of(sec_num);
                if sec_len < min_len {
                    return Err(
                        GribError::Malformed(offset + pos, "declared section length too small"),
                    );
                }
                if sec_len > msg_len - pos - 4 {
                    return Err(
                        GribError::Malformed(
                            offset + pos,
                            "declared section length overruns the message",
                        ),
                    );
                }
                let sec_bytes = slice_to_vec(
                    slice_subrange(msg_data.as_slice(), pos, pos + sec_len),
                );
                proof {
                    lemma_be_bytes_subrange(msg_data@, pos as int, pos + sec_len, 0, 4);
                }
                let section = section_from_payload(sec_num, sec_bytes);
                let ghost prior = sections@;
                sections.push(section);
                proof {
                    lemma_sections_bytes_push(prior, section);
                    assert(msg_data@.subrange(0, pos as int) + msg_data@.subrange(
                        pos as int,
                        pos + sec_len,
                    ) =~= msg_data@.subrange(0, pos + sec_len));
                }
                pos = pos + sec_len;
            }
        }
    }

    /// Scans the whole buffer for messages. Each match of the magic marker
    /// is parsed; a malformed message is skipped and scanning resumes after
    /// the offending marker, so sibling messages still parse. The returned
    /// messages are exactly the well-formed ones the scan meets, in order.
    pub fn parse_all(data: &[u8]) -> (r: Vec<Message>)
        ensures
            r@.map_values(|m: Message| m@) == scan_messages(data@, 0),
            forall|i: int| 0 <= i < r@.len() ==> (#[trigger] r@[i]).wf(),
    {
        let data_len: usize = data.len();
        let mut out: Vec<Message> = Vec::new();
        let mut pos: usize = 0;
        proof {
            assert(out@.map_values(|m: Message| m@) =~= Seq::<Seq<u8>>::empty());
        }
        while data_len >= 16 && pos <= data_len - 16
            invariant
                data_len == data@.len(),
                pos <= data_len || data_len < 16,
                scan_messages(data@, 0) == out@.map_values(|m: Message| m@) + scan_messages(
                    data@,
                    pos as int,
                ),
                forall|i: int| 0 <= i < out@.len() ==> (#[trigger] out@[i]).wf(),
            decreases data_len - pos,
        {
            if data[pos] == 0x47 && data[pos + 1] == 0x52 && data[pos + 2] == 0x49 && data[pos + 3]
                == 0x42 {
                match Message::parse(data, pos) {
                    Ok(m) => {
                        let tl = m.total_length();
                        proof {
                            lemma_be_bytes_subrange(
                                data@,
                                pos as int,
                                pos + declared_length(data@, pos as int),
                                8,
                                8,
                            );
                            let ghost prior_views = out@.map_values(|m2: Message| m2@);
                            assert((out@.push(m)).map_values(|m2: Message| m2@) =~= prior_views.push(
                                m@,
                            ));
                            assert(prior_views + (seq![m@] + scan_messages(
                                data@,
                                pos + declared_length(data@, pos as int),
                            )) =~= prior_views.push(m@) + scan_messages(
                                data@,
                                pos + declared_length(data@, pos as int),
                            ));
                        }
                        out.push(m);
                        pos = pos + (tl as usize);
                    },
                    Err(_) => {
                        pos = pos + 4;
                    },
                }
            } else {
                pos = pos + 1;
            }
        }
        proof {
            assert(scan_messages(data@, pos as int) =~= Seq::<Seq<u8>>::empty());
            assert(out@.map_values(|m: Message| m@) + Seq::<Seq<u8>>::empty() =~= out@.map_values(
                |m: Message| m@,
            ));
        }
        out
    }
}

/// Tags every packed value as present.
fn all_present(values: Vec<u64>) -> (r: Vec<Option<u64>>)
    ensures
        r@ == values@.map_values(|v: u64| Some(v)),
{
    let n = values.len();
    let mut out: Vec<Option<u64>> = Vec::new();
    let mut i: usize = 0;
    while i < n
        invariant
            i <= n,
            n == values@.len(),
            out@.len() == i,
            forall|j: int| 0 <= j < i ==> #[trigger] out@[j] == Some(values@[j]),
        decreases n - i,
    {
        out.push(Some(values[i]));
        i = i + 1;
    }
    proof {
        assert(out@ =~= values@.map_values(|v: u64| Some(v)));
    }
    out
}

/// The dense array that the message's data-representation, data and bitmap
/// sections decode to, if they are present and consistent.
pub open spec fn message_dense_values(ss: Seq<Section>) -> Option<Seq<Option<u64>>> {
    match (find_section(ss, 5), find_section(ss, 7)) {
        (Some(dri), Some(dsi)) => {
            let bm = match find_section(ss, 6) {
                Some(bi) => Some(ss[bi].bytes()),
                None => None::<Seq<u8>>,
            };
            dense_values_spec(ss[dri].bytes(), ss[dsi].bytes(), bm)
        },
        _ => None,
    }
}

impl Message {
    /// Reconstructs the dense array of packed values for this message: one
    /// entry per grid point, with nothing at every grid point the bitmap
    /// masks out, whatever its payload bits hold. Succeeds when and only
    /// when the needed sections are present, the representation template is
    /// registered, and the packed data covers the declared points.
    pub fn dense_packed_values(&self) -> (r: Result<Vec<Option<u64>>, GribError>)
        ensures
            r is Ok <==> message_dense_values(self.sections@) is Some,
            r matches Ok(d) ==> message_dense_values(self.sections@) == Some(d@),
    {
        let ghost ss = self.sections@;
        let dri = match find_first_section(&self.sections, 5) {
            Some(i) => i,
            None => {
                return Err(GribError::MissingSection("data representation"));
            },
        };
        let dsi = match find_first_section(&self.sections, 7) {
            Some(i) => i,
            None => {
                return Err(GribError::MissingSection("data"));
            },
        };
        let (tpl, n) = match &self.sections[dri] {
            Section::DataRepresentation(sec) => {
                let t = match sec.data_representation_template() {
                    Ok(DataRepresentationTemplate::SimplePacking(t)) => t,
                    Err(e) => {
                        return Err(e);
                    },
                };
                (t, sec.data_point_count())
            },
            _ => {
                proof {
                    assert(false);
                }
                return Err(GribError::MissingSection("data representation"));
            },
        };
        let w = tpl.bit_width();
        let payload = match &self.sections[dsi] {
            Section::Data(sec) => sec.raw_packed_data(),
            _ => {
                proof {
                    assert(false);
                }
                return Err(GribError::MissingSection("data"));
            },
        };
        let values = match unpack_simple_values(payload, w as usize, n as usize) {
            Ok(v) => v,
            Err(e) => {
                return Err(e);
            },
        };
        proof {
            let payload_spec = ss[dri as int].bytes();
            assert(values@ =~= Seq::new(
                n as nat,
                |i: int|
                    (crate::data_decoding::packed_value(
                        ss[dsi as int].bytes().subrange(5, ss[dsi as int].bytes().len() as int),
                        i * (w as int),
                        w as int,
                    ) as u64),
            ));
        }
        match find_first_section(&self.sections, 6) {
            Some(bi) => {
                match &self.sections[bi] {
                    Section::Bitmap(bsec) => {
                        if bsec.bitmap_applies() {
                            let bits = bsec.bitmap_bits();
                            proof {
                                assert(bits@ =~= bitmap_bits_of(ss[bi as int].bytes()));
                            }
                            match expand_with_bitmap(&values, &bits) {
                                Ok(d) => {
                                    proof {
                                        let spec_d = message_dense_values(ss).unwrap();
                                        assert(d@ =~= spec_d);
                                    }
                                    Ok(d)
                                },
                                Err(e) => Err(e),
                            }
                        } else {
                            let d = all_present(values);
                            proof {
                                assert(d@ =~= message_dense_values(ss).unwrap());
                            }
                            Ok(d)
                        }
                    },
                    _ => {
                        proof {
                            assert(false);
                        }
                        Err(GribError::MissingSection("bitmap"))
                    },
                }
            },
            None => {
                let d = all_present(values);
                proof {
                    assert(d@ =~= message_dense_values(ss).unwrap());
                }
                Ok(d)
            },
        }
    }
}

/// The message byte ranges that a left-to-right scan of `s` finds from
/// `pos`: at each match of the magic marker, a well-formed message is taken
/// whole and the scan jumps past it, a malformed one is skipped by resuming
/// after its marker, and anything else advances byte by byte.
pub open spec fn scan_messages(s: Seq<u8>, pos: int) -> Seq<Seq<u8>>
    decreases s.len() - pos,
    when 0 <= pos <= s.len()
{
    if pos + 16 > s.len() {
        Seq::empty()
    } else if !magic_at(s, pos) {
        scan_messages(s, pos + 1)
    } else if parseable_at(s, pos) {
        seq![s.subrange(pos, pos + declared_length(s, pos))] + scan_messages(
            s,
            pos + declared_length(s, pos),
        )
    } else {
        scan_messages(s, pos + 4)
    }
}

/// True when the bytes of `s` from `pos` to the end are exactly a run of
/// well-formed messages laid back to back.
pub open spec fn back_to_back_messages(s: Seq<u8>, pos: int) -> bool
    decreases s.len() - pos,
    when 0 <= pos <= s.len()
{
    if pos == s.len() {
        true
    } else if parseable_at(s, pos) {
        back_to_back_messages(s, pos + declared_length(s, pos))
    } else {
        false
    }
}

/// How many messages such a back-to-back run holds.
pub open spec fn back_to_back_count(s: Seq<u8>, pos: int) -> int
    decreases s.len() - pos,
    when 0 <= pos <= s.len()
{
    if pos == s.len() {
        0
    } else if parseable_at(s, pos) {
        1 + back_to_back_count(s, pos + declared_length(s, pos))
    } else {
        0
    }
}

/// The byte range of each message of such a back-to-back run, in order.
pub open spec fn back_to_back_ranges(s: Seq<u8>, pos: int) -> Seq<Seq<u8>>
    decreases s.len() - pos,
    when 0 <= pos <= s.len()
{
    if pos == s.len() {
        Seq::empty()
    } else if parseable_at(s, pos) {
        seq![s.subrange(pos, pos + declared_length(s, pos))] + back_to_back_ranges(
            s,
            pos + declared_length(s, pos),
        )
    } else {
        Seq::empty()
    }
}

/// On a buffer that is exactly a run of N well-formed messages laid back
/// to back, the scan finds exactly those N messages, in order: what
/// `parse_all` returns there has one entry per message, each a view of
/// that message's own byte range.
pub proof fn lemma_scan_of_back_to_back(s: Seq<u8>, pos: int)
    requires
        0 <= pos <= s.len(),
        back_to_back_messages(s, pos),
    ensures
        scan_messages(s, pos) == back_to_back_ranges(s, pos),
        scan_messages(s, pos).len() == back_to_back_count(s, pos),
    decreases s.len() - pos,
{
    if pos == s.len() {
    } else {
        let sub = s.subrange(pos, pos + declared_length(s, pos));
        assert(sub[0] == s[pos]);
        assert(sub[1] == s[pos + 1]);
        assert(sub[2] == s[pos + 2]);
        assert(sub[3] == s[pos + 3]);
        assert(magic_at(s, pos));
        lemma_scan_of_back_to_back(s, pos + declared_length(s, pos));
    }
}

} // verus!
