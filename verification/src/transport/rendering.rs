//! Replies as a diagnostic prints them, every field included.
use vstd::prelude::*;

use crate::contract::seq_view;
use crate::handle::Stateid;
use crate::text::{
    byte_list, byte_list_text, decimal, decimal_text, join, join3, tagged, tagged_text,
};

use super::{
    Attributes, AttributesView, ChangeInfo, DelegationType, DirEntry, DirEntryView, DirPage,
    DirPageView, Fsid, Nfs4Time, OpReply, OpenReply, ReadReply, ReadReplyView, ReplyView, Stability,
    WriteReply,
};

verus! {

/// Items one after the other, with a comma between them.
pub open spec fn listed(items: Seq<Seq<char>>) -> Seq<char>
    decreases items.len(),
{
    if items.len() == 0 {
        Seq::empty()
    } else if items.len() == 1 {
        items[0]
    } else {
        listed(items.drop_last()) + ", "@ + items.last()
    }
}

/// One field of a record.
pub open spec fn field(name: Seq<char>, value: Seq<char>) -> Seq<char> {
    name + ": "@ + value
}

/// A record with these fields.
pub open spec fn record(name: Seq<char>, fields: Seq<Seq<char>>) -> Seq<char> {
    name + " { "@ + listed(fields) + " }"@
}

/// A tuple of one value.
pub open spec fn wrapped(name: Seq<char>, value: Seq<char>) -> Seq<char> {
    name + "("@ + value + ")"@
}

/// A value that may be absent.
pub open spec fn optional(value: Option<Seq<char>>) -> Seq<char> {
    match value {
        None => "None"@,
        Some(inner) => wrapped("Some"@, inner),
    }
}

/// A number that may be absent.
pub open spec fn optional_decimal(value: Option<nat>) -> Seq<char> {
    optional(
        match value {
            None => None,
            Some(n) => Some(decimal(n)),
        },
    )
}

/// Bytes that may be absent.
pub open spec fn optional_bytes(value: Option<Seq<u8>>) -> Seq<char> {
    optional(
        match value {
            None => None,
            Some(bytes) => Some(byte_list(bytes)),
        },
    )
}

/// `true` or `false`.
pub open spec fn flag(value: bool) -> Seq<char> {
    if value {
        "true"@
    } else {
        "false"@
    }
}

/// A number with its sign where it is negative.
pub open spec fn signed(value: int) -> Seq<char> {
    if value < 0 {
        "-"@ + decimal((-value) as nat)
    } else {
        decimal(value as nat)
    }
}

fn listed_text(items: &Vec<String>) -> (r: String)
    ensures
        r@ == listed(seq_view(items@)),
{
    let mut r = "".to_owned();
    let ghost whole = seq_view(items@);
    proof {
        reveal_strlit("");
        assert(r@ =~= Seq::<char>::empty());
        assert(whole.take(0) =~= Seq::<Seq<char>>::empty());
    }
    let mut i: usize = 0;
    while i < items.len()
        invariant
            i <= items@.len(),
            whole == seq_view(items@),
            r@ == listed(whole.take(i as int)),
        decreases items@.len() - i,
    {
        proof {
            assert(whole.take(i + 1).drop_last() =~= whole.take(i as int));
            assert(whole.take(i + 1).last() == items@[i as int]@);
        }
        if i == 0 {
            r = items[i].clone();
        } else {
            r = r.concat(", ").concat(items[i].as_str());
        }
        i += 1;
    }
    proof {
        assert(whole.take(i as int) =~= whole);
    }
    r
}

fn field_text(name: &str, value: String) -> (r: String)
    ensures
        r@ == field(name@, value@),
{
    join3(name, ": ", value.as_str())
}

fn record_text(name: &str, fields: Vec<String>) -> (r: String)
    ensures
        r@ == record(name@, seq_view(fields@)),
{
    join3(name, " { ", listed_text(&fields).as_str()).concat(" }")
}

fn wrapped_text(name: &str, value: String) -> (r: String)
    ensures
        r@ == wrapped(name@, value@),
{
    join3(name, "(", value.as_str()).concat(")")
}

fn optional_text(value: Option<String>) -> (r: String)
    ensures
        r@ == optional(
            match value {
                None => None,
                Some(inner) => Some(inner@),
            },
        ),
{
    match value {
        None => "None".to_owned(),
        Some(inner) => wrapped_text("Some", inner),
    }
}

fn optional_decimal_text(value: Option<u64>) -> (r: String)
    ensures
        r@ == optional_decimal(
            match value {
                None => None,
                Some(n) => Some(n as nat),
            },
        ),
{
    match value {
        None => optional_text(None),
        Some(n) => optional_text(Some(decimal_text(n))),
    }
}

fn optional_bytes_text(value: &Option<Vec<u8>>) -> (r: String)
    ensures
        r@ == optional_bytes(
            match *value {
                None => None,
                Some(bytes) => Some(bytes@),
            },
        ),
{
    match value {
        None => optional_text(None),
        Some(bytes) => optional_text(Some(byte_list_text(bytes.as_slice()))),
    }
}

fn flag_text(value: bool) -> (r: String)
    ensures
        r@ == flag(value),
{
    if value {
        "true".to_owned()
    } else {
        "false".to_owned()
    }
}

fn signed_text(value: i64) -> (r: String)
    ensures
        r@ == signed(value as int),
{
    if value < 0 {
        let below: u64 = (-(value as i128)) as u64;
        join("-", decimal_text(below).as_str())
    } else {
        decimal_text(value as u64)
    }
}

/// Eight bytes under the name of their type.
pub open spec fn eight_bytes(name: Seq<char>, bytes: Seq<u8>) -> Seq<char> {
    wrapped(name, byte_list(bytes))
}

fn eight_bytes_text(name: &str, bytes: &[u8; 8]) -> (r: String)
    ensures
        r@ == eight_bytes(name@, bytes@),
{
    wrapped_text(name, byte_list_text(bytes))
}

/// A stateid.
pub open spec fn stateid_text(stateid: Stateid) -> Seq<char> {
    record(
        "Stateid"@,
        seq![
            field("seqid"@, decimal(stateid.seqid as nat)),
            field("other"@, byte_list(stateid.other@)),
        ],
    )
}

fn print_stateid(stateid: &Stateid) -> (r: String)
    ensures
        r@ == stateid_text(*stateid),
{
    let fields = vec![
        field_text("seqid", decimal_text(stateid.seqid as u64)),
        field_text("other", byte_list_text(&stateid.other)),
    ];
    proof {
        assert(seq_view(fields@) =~= seq![
            field("seqid"@, decimal(stateid.seqid as nat)),
            field("other"@, byte_list(stateid.other@)),
        ]);
    }
    record_text("Stateid", fields)
}

/// A filehandle.
pub open spec fn handle_text(handle: Seq<u8>) -> Seq<char> {
    record("FileHandle"@, seq![field("bytes"@, byte_list(handle))])
}

fn print_handle(handle: &[u8]) -> (r: String)
    ensures
        r@ == handle_text(handle@),
{
    let fields = vec![field_text("bytes", byte_list_text(handle))];
    proof {
        assert(seq_view(fields@) =~= seq![field("bytes"@, byte_list(handle@))]);
    }
    record_text("FileHandle", fields)
}

/// A file system identity.
pub open spec fn fsid_text(fsid: Fsid) -> Seq<char> {
    record(
        "Fsid"@,
        seq![
            field("major"@, decimal(fsid.major as nat)),
            field("minor"@, decimal(fsid.minor as nat)),
        ],
    )
}

fn print_fsid(fsid: Fsid) -> (r: String)
    ensures
        r@ == fsid_text(fsid),
{
    let fields = vec![
        field_text("major", decimal_text(fsid.major)),
        field_text("minor", decimal_text(fsid.minor)),
    ];
    proof {
        assert(seq_view(fields@) =~= seq![
            field("major"@, decimal(fsid.major as nat)),
            field("minor"@, decimal(fsid.minor as nat)),
        ]);
    }
    record_text("Fsid", fields)
}

/// A time.
pub open spec fn time_text(time: Nfs4Time) -> Seq<char> {
    record(
        "Nfs4Time"@,
        seq![
            field("seconds"@, signed(time.seconds as int)),
            field("nanoseconds"@, decimal(time.nanoseconds as nat)),
        ],
    )
}

fn print_time(time: Nfs4Time) -> (r: String)
    ensures
        r@ == time_text(time),
{
    let fields = vec![
        field_text("seconds", signed_text(time.seconds)),
        field_text("nanoseconds", decimal_text(time.nanoseconds as u64)),
    ];
    proof {
        assert(seq_view(fields@) =~= seq![
            field("seconds"@, signed(time.seconds as int)),
            field("nanoseconds"@, decimal(time.nanoseconds as nat)),
        ]);
    }
    record_text("Nfs4Time", fields)
}

/// The fields of a set of attributes, in order.
pub open spec fn attribute_fields(attributes: AttributesView) -> Seq<Seq<char>> {
    seq![
        field("returned"@, tagged("AttrMask"@, attributes.returned.0 as nat)),
        field(
            "file_type"@,
            optional(
                match attributes.file_type {
                    None => None,
                    Some(kind) => Some(kind.name()),
                },
            ),
        ),
        field(
            "change"@,
            optional_decimal(
                match attributes.change {
                    None => None,
                    Some(n) => Some(n as nat),
                },
            ),
        ),
        field(
            "size"@,
            optional_decimal(
                match attributes.size {
                    None => None,
                    Some(n) => Some(n as nat),
                },
            ),
        ),
        field(
            "fsid"@,
            optional(
                match attributes.fsid {
                    None => None,
                    Some(fsid) => Some(fsid_text(fsid)),
                },
            ),
        ),
        field(
            "fileid"@,
            optional_decimal(
                match attributes.fileid {
                    None => None,
                    Some(n) => Some(n as nat),
                },
            ),
        ),
        field(
            "numlinks"@,
            optional_decimal(
                match attributes.numlinks {
                    None => None,
                    Some(n) => Some(n as nat),
                },
            ),
        ),
        field(
            "mode"@,
            optional_decimal(
                match attributes.mode {
                    None => None,
                    Some(n) => Some(n as nat),
                },
            ),
        ),
        field("owner"@, optional_bytes(attributes.owner)),
        field("owner_group"@, optional_bytes(attributes.owner_group)),
        field(
            "time_modify"@,
            optional(
                match attributes.time_modify {
                    None => None,
                    Some(time) => Some(time_text(time)),
                },
            ),
        ),
        field(
            "lease_time"@,
            optional_decimal(
                match attributes.lease_time {
                    None => None,
                    Some(n) => Some(n as nat),
                },
            ),
        ),
        field(
            "rdattr_error"@,
            optional(
                match attributes.rdattr_error {
                    None => None,
                    Some(status) => Some(tagged("Nfs4Status"@, status.0 as nat)),
                },
            ),
        ),
    ]
}

fn widened(value: Option<u32>) -> (r: Option<u64>)
    ensures
        r == (match value {
            None => None,
            Some(n) => Some(n as u64),
        }),
{
    match value {
        None => None,
        Some(n) => Some(n as u64),
    }
}

fn print_attributes(attributes: &Attributes) -> (r: String)
    ensures
        r@ == record("Attributes"@, attribute_fields(attributes@)),
{
    let file_type = match attributes.file_type {
        None => None,
        Some(kind) => Some(kind.text()),
    };
    let fsid = match attributes.fsid {
        None => None,
        Some(fsid) => Some(print_fsid(fsid)),
    };
    let time = match attributes.time_modify {
        None => None,
        Some(time) => Some(print_time(time)),
    };
    let status = match attributes.rdattr_error {
        None => None,
        Some(status) => Some(tagged_text("Nfs4Status", status.0 as u64)),
    };
    let fields = vec![
        field_text("returned", tagged_text("AttrMask", attributes.returned.0)),
        field_text("file_type", optional_text(file_type)),
        field_text("change", optional_decimal_text(attributes.change)),
        field_text("size", optional_decimal_text(attributes.size)),
        field_text("fsid", optional_text(fsid)),
        field_text("fileid", optional_decimal_text(attributes.fileid)),
        field_text("numlinks", optional_decimal_text(widened(attributes.numlinks))),
        field_text("mode", optional_decimal_text(widened(attributes.mode))),
        field_text("owner", optional_bytes_text(&attributes.owner)),
        field_text("owner_group", optional_bytes_text(&attributes.owner_group)),
        field_text("time_modify", optional_text(time)),
        field_text("lease_time", optional_decimal_text(widened(attributes.lease_time))),
        field_text("rdattr_error", optional_text(status)),
    ];
    proof {
        assert(seq_view(fields@) =~= attribute_fields(attributes@));
    }
    record_text("Attributes", fields)
}

/// One directory entry.
pub open spec fn entry_text(entry: DirEntryView) -> Seq<char> {
    record(
        "DirEntry"@,
        seq![
            field("cookie"@, tagged("DirCookie"@, entry.cookie.0 as nat)),
            field("name"@, single("ComponentName"@, "bytes"@, byte_list(entry.name))),
            field("attributes"@, record("Attributes"@, attribute_fields(entry.attributes))),
        ],
    )
}

fn print_entry(entry: &DirEntry) -> (r: String)
    ensures
        r@ == entry_text(entry@),
{
    let fields = vec![
        field_text("cookie", tagged_text("DirCookie", entry.cookie.0)),
        field_text(
            "name",
            single_text("ComponentName", "bytes", byte_list_text(entry.name.as_bytes())),
        ),
        field_text("attributes", print_attributes(&entry.attributes)),
    ];
    proof {
        assert(seq_view(fields@) =~= seq![
            field("cookie"@, tagged("DirCookie"@, entry@.cookie.0 as nat)),
            field("name"@, single("ComponentName"@, "bytes"@, byte_list(entry@.name))),
            field("attributes"@, record("Attributes"@, attribute_fields(entry@.attributes))),
        ]);
    }
    record_text("DirEntry", fields)
}

/// The entries of a page, each as it is printed.
pub open spec fn entry_texts(entries: Seq<DirEntryView>) -> Seq<Seq<char>> {
    Seq::new(entries.len(), |i: int| entry_text(entries[i]))
}

/// One page of a directory.
pub open spec fn page_text(page: DirPageView) -> Seq<char> {
    record(
        "DirPage"@,
        seq![
            field("verifier"@, eight_bytes("DirVerifier"@, page.verifier.0@)),
            field("entries"@, "["@ + listed(entry_texts(page.entries)) + "]"@),
            field("eof"@, flag(page.eof)),
        ],
    )
}

fn print_page(page: &DirPage) -> (r: String)
    ensures
        r@ == page_text(page@),
{
    let mut items: Vec<String> = Vec::new();
    let mut i: usize = 0;
    while i < page.entries.len()
        invariant
            i <= page.entries@.len(),
            items@.len() == i,
            forall|j: int| 0 <= j < i ==> #[trigger] items@[j]@ == entry_text(page.entries@[j]@),
        decreases page.entries@.len() - i,
    {
        items.push(print_entry(&page.entries[i]));
        i += 1;
    }
    proof {
        assert(seq_view(items@) =~= entry_texts(page@.entries));
    }
    let fields = vec![
        field_text("verifier", eight_bytes_text("DirVerifier", &page.verifier.0)),
        field_text("entries", join3("[", listed_text(&items).as_str(), "]")),
        field_text("eof", flag_text(page.eof)),
    ];
    proof {
        assert(seq_view(fields@) =~= seq![
            field("verifier"@, eight_bytes("DirVerifier"@, page@.verifier.0@)),
            field("entries"@, "["@ + listed(entry_texts(page@.entries)) + "]"@),
            field("eof"@, flag(page@.eof)),
        ]);
    }
    record_text("DirPage", fields)
}

/// What a READ returned.
pub open spec fn read_text(read: ReadReplyView) -> Seq<char> {
    record(
        "ReadReply"@,
        seq![field("data"@, byte_list(read.data)), field("eof"@, flag(read.eof))],
    )
}

fn print_read(read: &ReadReply) -> (r: String)
    ensures
        r@ == read_text(read@),
{
    let fields = vec![
        field_text("data", byte_list_text(read.data.as_slice())),
        field_text("eof", flag_text(read.eof)),
    ];
    proof {
        assert(seq_view(fields@) =~= seq![
            field("data"@, byte_list(read@.data)),
            field("eof"@, flag(read@.eof)),
        ]);
    }
    record_text("ReadReply", fields)
}

/// A stability.
pub open spec fn stability_text(stability: Stability) -> Seq<char> {
    match stability {
        Stability::Unstable => "Unstable"@,
        Stability::DataSync => "DataSync"@,
        Stability::FileSync => "FileSync"@,
    }
}

/// What a WRITE returned.
pub open spec fn write_text(write: WriteReply) -> Seq<char> {
    record(
        "WriteReply"@,
        seq![
            field("count"@, decimal(write.count as nat)),
            field("committed"@, stability_text(write.committed)),
            field("verifier"@, eight_bytes("WriteVerifier"@, write.verifier.0@)),
        ],
    )
}

fn print_write(write: &WriteReply) -> (r: String)
    ensures
        r@ == write_text(*write),
{
    let committed = match write.committed {
        Stability::Unstable => "Unstable".to_owned(),
        Stability::DataSync => "DataSync".to_owned(),
        Stability::FileSync => "FileSync".to_owned(),
    };
    let fields = vec![
        field_text("count", decimal_text(write.count as u64)),
        field_text("committed", committed),
        field_text("verifier", eight_bytes_text("WriteVerifier", &write.verifier.0)),
    ];
    proof {
        assert(seq_view(fields@) =~= seq![
            field("count"@, decimal(write.count as nat)),
            field("committed"@, stability_text(write.committed)),
            field("verifier"@, eight_bytes("WriteVerifier"@, write.verifier.0@)),
        ]);
    }
    record_text("WriteReply", fields)
}

/// A delegation.
pub open spec fn delegation_text(delegation: DelegationType) -> Seq<char> {
    match delegation {
        DelegationType::NoDelegation => "None"@,
        DelegationType::Read => "Read"@,
        DelegationType::Write => "Write"@,
    }
}

/// What an OPEN returned.
pub open spec fn open_text(open: OpenReply) -> Seq<char> {
    record(
        "OpenReply"@,
        seq![
            field("stateid"@, stateid_text(open.stateid)),
            field("confirm_required"@, flag(open.confirm_required)),
            field("change_atomic"@, flag(open.change_atomic)),
            field("change_before"@, decimal(open.change_before as nat)),
            field("change_after"@, decimal(open.change_after as nat)),
            field("delegation"@, delegation_text(open.delegation)),
        ],
    )
}

fn print_open(open: &OpenReply) -> (r: String)
    ensures
        r@ == open_text(*open),
{
    let delegation = match open.delegation {
        DelegationType::NoDelegation => "None".to_owned(),
        DelegationType::Read => "Read".to_owned(),
        DelegationType::Write => "Write".to_owned(),
    };
    let fields = vec![
        field_text("stateid", print_stateid(&open.stateid)),
        field_text("confirm_required", flag_text(open.confirm_required)),
        field_text("change_atomic", flag_text(open.change_atomic)),
        field_text("change_before", decimal_text(open.change_before)),
        field_text("change_after", decimal_text(open.change_after)),
        field_text("delegation", delegation),
    ];
    proof {
        assert(seq_view(fields@) =~= seq![
            field("stateid"@, stateid_text(open.stateid)),
            field("confirm_required"@, flag(open.confirm_required)),
            field("change_atomic"@, flag(open.change_atomic)),
            field("change_before"@, decimal(open.change_before as nat)),
            field("change_after"@, decimal(open.change_after as nat)),
            field("delegation"@, delegation_text(open.delegation)),
        ]);
    }
    record_text("OpenReply", fields)
}

/// The change attributes around a namespace change.
pub open spec fn change_text(info: ChangeInfo) -> Seq<char> {
    record(
        "ChangeInfo"@,
        seq![
            field("atomic"@, flag(info.atomic)),
            field("before"@, decimal(info.before as nat)),
            field("after"@, decimal(info.after as nat)),
        ],
    )
}

fn print_change(info: &ChangeInfo) -> (r: String)
    ensures
        r@ == change_text(*info),
{
    let fields = vec![
        field_text("atomic", flag_text(info.atomic)),
        field_text("before", decimal_text(info.before)),
        field_text("after", decimal_text(info.after)),
    ];
    proof {
        assert(seq_view(fields@) =~= seq![
            field("atomic"@, flag(info.atomic)),
            field("before"@, decimal(info.before as nat)),
            field("after"@, decimal(info.after as nat)),
        ]);
    }
    record_text("ChangeInfo", fields)
}

/// A record of one field.
pub open spec fn single(name: Seq<char>, only: Seq<char>, value: Seq<char>) -> Seq<char> {
    record(name, seq![field(only, value)])
}

fn single_text(name: &str, only: &str, value: String) -> (r: String)
    ensures
        r@ == single(name@, only@, value@),
{
    let fields = vec![field_text(only, value)];
    proof {
        assert(seq_view(fields@) =~= seq![field(only@, value@)]);
    }
    record_text(name, fields)
}

/// A record of two fields.
pub open spec fn double(
    name: Seq<char>,
    first: Seq<char>,
    one: Seq<char>,
    second: Seq<char>,
    other: Seq<char>,
) -> Seq<char> {
    record(name, seq![field(first, one), field(second, other)])
}

fn double_text(name: &str, first: &str, one: String, second: &str, other: String) -> (r: String)
    ensures
        r@ == double(name@, first@, one@, second@, other@),
{
    let fields = vec![field_text(first, one), field_text(second, other)];
    proof {
        assert(seq_view(fields@) =~= seq![field(first@, one@), field(second@, other@)]);
    }
    record_text(name, fields)
}

/// A reply as a diagnostic prints it.
pub open spec fn reply_text(reply: ReplyView) -> Seq<char> {
    match reply {
        ReplyView::PutRootFh => "PutRootFh"@,
        ReplyView::PutFh => "PutFh"@,
        ReplyView::GetFh(handle) => wrapped("GetFh"@, handle_text(handle)),
        ReplyView::GetAttr(attributes) => wrapped(
            "GetAttr"@,
            record("Attributes"@, attribute_fields(attributes)),
        ),
        ReplyView::Lookup => "Lookup"@,
        ReplyView::LookupParent => "LookupParent"@,
        ReplyView::ReadDir(page) => wrapped("ReadDir"@, page_text(page)),
        ReplyView::Read(read) => wrapped("Read"@, read_text(read)),
        ReplyView::Write(write) => wrapped("Write"@, write_text(write)),
        ReplyView::Commit(commit) => wrapped(
            "Commit"@,
            single(
                "CommitReply"@,
                "verifier"@,
                eight_bytes("WriteVerifier"@, commit.verifier.0@),
            ),
        ),
        ReplyView::Open(open) => wrapped("Open"@, open_text(open)),
        ReplyView::OpenConfirm(stateid) => wrapped("OpenConfirm"@, stateid_text(stateid)),
        ReplyView::Close(stateid) => wrapped(
            "Close"@,
            single("CloseReply"@, "stateid"@, stateid_text(stateid)),
        ),
        ReplyView::Lock(stateid) => wrapped(
            "Lock"@,
            single("LockReply"@, "stateid"@, stateid_text(stateid)),
        ),
        ReplyView::Locku(stateid) => wrapped("Locku"@, stateid_text(stateid)),
        ReplyView::Renew => "Renew"@,
        ReplyView::SetClientId { client_id, confirm } => wrapped(
            "SetClientId"@,
            double(
                "SetClientIdReply"@,
                "client_id"@,
                tagged("ClientId"@, client_id.0 as nat),
                "confirm"@,
                eight_bytes("Verifier"@, confirm.0@),
            ),
        ),
        ReplyView::SetClientIdConfirm => "SetClientIdConfirm"@,
        ReplyView::SaveFh => "SaveFh"@,
        ReplyView::Remove(info) => wrapped("Remove"@, change_text(info)),
        ReplyView::Rename { source, target } => double(
            "Rename"@,
            "source"@,
            change_text(source),
            "target"@,
            change_text(target),
        ),
        ReplyView::Create { info, attrset } => double(
            "Create"@,
            "info"@,
            change_text(info),
            "attrset"@,
            tagged("AttrMask"@, attrset.0 as nat),
        ),
        ReplyView::SetAttr(attrset) => wrapped("SetAttr"@, tagged("AttrMask"@, attrset.0 as nat)),
    }
}

impl OpReply {
    /// This reply as a diagnostic prints it, every field included.
    pub fn text(&self) -> (r: String)
        ensures
            r@ == reply_text(self@),
    {
        match self {
            OpReply::PutRootFh => "PutRootFh".to_owned(),
            OpReply::PutFh => "PutFh".to_owned(),
            OpReply::GetFh(handle) => wrapped_text("GetFh", print_handle(handle.as_bytes())),
            OpReply::GetAttr(attributes) => wrapped_text(
                "GetAttr",
                print_attributes(attributes),
            ),
            OpReply::Lookup => "Lookup".to_owned(),
            OpReply::LookupParent => "LookupParent".to_owned(),
            OpReply::ReadDir(page) => wrapped_text("ReadDir", print_page(page)),
            OpReply::Read(read) => wrapped_text("Read", print_read(read)),
            OpReply::Write(write) => wrapped_text("Write", print_write(write)),
            OpReply::Commit(commit) => wrapped_text(
                "Commit",
                single_text(
                    "CommitReply",
                    "verifier",
                    eight_bytes_text("WriteVerifier", &commit.verifier.0),
                ),
            ),
            OpReply::Open(open) => wrapped_text("Open", print_open(open)),
            OpReply::OpenConfirm(stateid) => wrapped_text("OpenConfirm", print_stateid(stateid)),
            OpReply::Close(stateid) => wrapped_text(
                "Close",
                single_text("CloseReply", "stateid", print_stateid(stateid)),
            ),
            OpReply::Lock(stateid) => wrapped_text(
                "Lock",
                single_text("LockReply", "stateid", print_stateid(stateid)),
            ),
            OpReply::Locku(stateid) => wrapped_text("Locku", print_stateid(stateid)),
            OpReply::Renew => "Renew".to_owned(),
            OpReply::SetClientId { client_id, confirm } => wrapped_text(
                "SetClientId",
                double_text(
                    "SetClientIdReply",
                    "client_id",
                    tagged_text("ClientId", client_id.0),
                    "confirm",
                    eight_bytes_text("Verifier", &confirm.0),
                ),
            ),
            OpReply::SetClientIdConfirm => "SetClientIdConfirm".to_owned(),
            OpReply::SaveFh => "SaveFh".to_owned(),
            OpReply::Remove(info) => wrapped_text("Remove", print_change(info)),
            OpReply::Rename { source, target } => double_text(
                "Rename",
                "source",
                print_change(source),
                "target",
                print_change(target),
            ),
            OpReply::Create { info, attrset } => double_text(
                "Create",
                "info",
                print_change(info),
                "attrset",
                tagged_text("AttrMask", attrset.0),
            ),
            OpReply::SetAttr(attrset) => wrapped_text(
                "SetAttr",
                tagged_text("AttrMask", attrset.0),
            ),
        }
    }
}

} // verus!
