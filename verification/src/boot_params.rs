//! The boot parameters page that a Linux kernel is started with.
use crate::bytes;
use crate::bytes::Writer;
use crate::setup_header;
use crate::setup_header::SetupHeader;
use vstd::prelude::*;

verus! {

/// Memory that the kernel may use.
pub const E820_RAM: u32 = 1;

/// Memory that the kernel must leave alone.
pub const E820_RESERVED: u32 = 2;

/// How many memory map entries the boot parameters have room for.
pub const E820_MAX_ENTRIES_ZEROPAGE: usize = 128;

/// An entry of the memory map.
#[derive(Debug, Clone, Copy)]
pub struct BootE820Entry {
    /// First address.
    pub addr: u64,
    /// Size in bytes.
    pub size: u64,
    /// What the memory is.
    pub typ: u32,
}

impl BootE820Entry {
    /// All fields zero.
    pub open spec fn zero() -> BootE820Entry {
        BootE820Entry { addr: 0, size: 0, typ: 0 }
    }

    /// The 20 bytes of the entry.
    pub open spec fn layout(self) -> Seq<u8> {
        bytes::le_bytes(self.addr as nat, 8) + bytes::le_bytes(self.size as nat, 8)
            + bytes::le_bytes(self.typ as nat, 4)
    }
}

impl Default for BootE820Entry {
    fn default() -> (entry: BootE820Entry)
        ensures
            entry == BootE820Entry::zero(),
    {
        BootE820Entry { addr: 0, size: 0, typ: 0 }
    }
}

/// The bytes of memory map entries, one after the other.
pub open spec fn table_layout(entries: Seq<BootE820Entry>) -> Seq<u8>
    decreases entries.len(),
{
    if entries.len() == 0 {
        Seq::empty()
    } else {
        table_layout(entries.drop_last()) + entries.last().layout()
    }
}

/// The bytes of four-byte numbers, one after the other.
pub open spec fn words_layout(words: Seq<u32>) -> Seq<u8>
    decreases words.len(),
{
    if words.len() == 0 {
        Seq::empty()
    } else {
        words_layout(words.drop_last()) + bytes::le_bytes(words.last() as nat, 4)
    }
}

/// `n` entries with all fields zero.
pub open spec fn zero_entries(n: nat) -> Seq<BootE820Entry> {
    Seq::new(n, |i: int| BootE820Entry::zero())
}

/// Zero is encoded in zeros.
pub proof fn lemma_zero_bytes(width: nat)
    ensures
        bytes::le_bytes(0, width) == bytes::zeros(width),
    decreases width,
{
    if width > 0 {
        lemma_zero_bytes((width - 1) as nat);
    }
    assert(bytes::le_bytes(0, width) =~= bytes::zeros(width));
}

/// A memory map takes 20 bytes for each entry, and entry `i` lies at 20 times `i`.
pub proof fn lemma_table_layout(entries: Seq<BootE820Entry>)
    ensures
        table_layout(entries).len() == 20 * entries.len(),
        forall|i: int|
            0 <= i < entries.len() ==> #[trigger] table_layout(entries).subrange(20 * i, 20 * i + 20)
                == entries[i].layout(),
    decreases entries.len(),
{
    broadcast use bytes::lemma_le_bytes_len;

    if entries.len() > 0 {
        let front = entries.drop_last();
        lemma_table_layout(front);
        assert forall|i: int| 0 <= i < entries.len() implies #[trigger] table_layout(
            entries,
        ).subrange(20 * i, 20 * i + 20) == entries[i].layout() by {
            if i < front.len() {
                assert(table_layout(entries).subrange(20 * i, 20 * i + 20) =~= table_layout(
                    front,
                ).subrange(20 * i, 20 * i + 20));
            } else {
                assert(table_layout(entries).subrange(20 * i, 20 * i + 20)
                    =~= entries[i].layout());
            }
        }
    }
}

proof fn lemma_table_padding(entries: Seq<BootE820Entry>, n: nat)
    ensures
        table_layout(entries + zero_entries(n)) == table_layout(entries) + bytes::zeros(20 * n),
    decreases n,
{
    broadcast use bytes::lemma_le_bytes_len;

    if n == 0 {
        assert(entries + zero_entries(0) =~= entries);
        assert(table_layout(entries) + bytes::zeros(0) =~= table_layout(entries));
    } else {
        lemma_table_padding(entries, (n - 1) as nat);
        let all = entries + zero_entries(n);
        assert(all.drop_last() =~= entries + zero_entries((n - 1) as nat));
        lemma_zero_bytes(8);
        lemma_zero_bytes(4);
        assert(BootE820Entry::zero().layout() =~= bytes::zeros(20));
        assert(bytes::zeros((20 * (n - 1)) as nat) + bytes::zeros(20) =~= bytes::zeros(20 * n));
        assert(table_layout(all) =~= table_layout(entries) + bytes::zeros(20 * n));
    }
}

proof fn lemma_zero_words(words: Seq<u32>)
    requires
        forall|i: int| 0 <= i < words.len() ==> words[i] == 0,
    ensures
        words_layout(words) == bytes::zeros(4 * words.len()),
    decreases words.len(),
{
    if words.len() > 0 {
        lemma_zero_words(words.drop_last());
        lemma_zero_bytes(4);
    }
    assert(words_layout(words) =~= bytes::zeros(4 * words.len()));
}

fn table_bytes(entries: &[BootE820Entry]) -> (data: Vec<u8>)
    ensures
        data@ == table_layout(entries@),
{
    let mut data: Vec<u8> = Vec::new();
    let mut i: usize = 0;
    assert(entries@.take(0) =~= Seq::<BootE820Entry>::empty());
    while i < entries.len()
        invariant
            i <= entries@.len(),
            data@ == table_layout(entries@.take(i as int)),
        decreases entries@.len() - i,
    {
        let ghost before = data@;
        bytes::push_u64(&mut data, entries[i].addr);
        bytes::push_u64(&mut data, entries[i].size);
        bytes::push_u32(&mut data, entries[i].typ);
        i = i + 1;
        proof {
            let next = entries@.take(i as int);
            assert(next.drop_last() =~= entries@.take(i - 1));
            assert(data@ =~= before + entries@[i - 1].layout());
        }
    }
    assert(entries@.take(i as int) =~= entries@);
    data
}

fn word_bytes(words: &[u32]) -> (data: Vec<u8>)
    ensures
        data@ == words_layout(words@),
{
    let mut data: Vec<u8> = Vec::new();
    let mut i: usize = 0;
    assert(words@.take(0) =~= Seq::<u32>::empty());
    while i < words.len()
        invariant
            i <= words@.len(),
            data@ == words_layout(words@.take(i as int)),
        decreases words@.len() - i,
    {
        bytes::push_u32(&mut data, words[i]);
        i = i + 1;
        assert(words@.take(i as int).drop_last() =~= words@.take(i - 1));
    }
    assert(words@.take(i as int) =~= words@);
    data
}

/// The boot parameters page.
#[derive(Debug, Clone, Copy)]
pub struct BootParams {
    /// Screen state.
    pub screen_info: [u8; 64],
    /// Power management firmware.
    pub apm_bios_info: [u8; 20],
    /// Unused.
    pub pad2: [u8; 4],
    /// Trusted boot page.
    pub tboot_addr: u64,
    /// SpeedStep firmware.
    pub ist_info: [u8; 16],
    /// Where the ACPI root pointer lies.
    pub acpi_rsdp_addr: u64,
    /// Unused.
    pub pad3: [u8; 8],
    /// First disk.
    pub hd0_info: [u8; 16],
    /// Second disk.
    pub hd1_info: [u8; 16],
    /// System description.
    pub sys_desc_table: [u8; 16],
    /// Open firmware.
    pub olpc_ofw_header: [u8; 16],
    /// High half of the initrd address.
    pub ext_ramdisk_image: u32,
    /// High half of the initrd size.
    pub ext_ramdisk_size: u32,
    /// High half of the command line address.
    pub ext_cmd_line_ptr: u32,
    /// Unused.
    pub pad4: [u8; 112],
    /// Confidential computing data.
    pub cc_blob_address: u32,
    /// Monitor description.
    pub edid_info: [u8; 128],
    /// EFI tables.
    pub efi_info: [u8; 32],
    /// Memory size from firmware.
    pub alt_mem_k: u32,
    /// Scratch space.
    pub scratch: u32,
    /// How many entries of the memory map are in use.
    pub e820_entries: u8,
    /// Disk records in use.
    pub eddbuf_entries: u8,
    /// Disk signatures in use.
    pub edd_mbr_sig_buf_entries: u8,
    /// Keyboard state.
    pub kbd_status: u8,
    /// Secure boot state.
    pub secure_boot: u8,
    /// Unused.
    pub pad5: [u8; 2],
    /// Tells a cleared page from a used one.
    pub sentinel: u8,
    /// Unused.
    pub pad6: [u8; 1],
    /// The setup header.
    pub hdr: SetupHeader,
    /// Unused.
    pub pad7: [u8; 36],
    /// Disk signatures.
    pub edd_mbr_sig_buffer: [u32; 16],
    /// The memory map.
    pub e820_table: [BootE820Entry; 128],
    /// Unused.
    pub pad8: [u8; 48],
    /// Disk records.
    pub eddbuf: [u8; 492],
    /// Unused.
    pub pad9: [u8; 276],
}

impl BootParams {
    /// Every field is clear.
    pub open spec fn is_clear(self) -> bool {
        &&& self.screen_info@ == bytes::zeros(64)
        &&& self.apm_bios_info@ == bytes::zeros(20)
        &&& self.pad2@ == bytes::zeros(4)
        &&& self.tboot_addr == 0
        &&& self.ist_info@ == bytes::zeros(16)
        &&& self.acpi_rsdp_addr == 0
        &&& self.pad3@ == bytes::zeros(8)
        &&& self.hd0_info@ == bytes::zeros(16)
        &&& self.hd1_info@ == bytes::zeros(16)
        &&& self.sys_desc_table@ == bytes::zeros(16)
        &&& self.olpc_ofw_header@ == bytes::zeros(16)
        &&& self.ext_ramdisk_image == 0
        &&& self.ext_ramdisk_size == 0
        &&& self.ext_cmd_line_ptr == 0
        &&& self.pad4@ == bytes::zeros(112)
        &&& self.cc_blob_address == 0
        &&& self.edid_info@ == bytes::zeros(128)
        &&& self.efi_info@ == bytes::zeros(32)
        &&& self.alt_mem_k == 0
        &&& self.scratch == 0
        &&& self.e820_entries == 0
        &&& self.eddbuf_entries == 0
        &&& self.edd_mbr_sig_buf_entries == 0
        &&& self.kbd_status == 0
        &&& self.secure_boot == 0
        &&& self.pad5@ == bytes::zeros(2)
        &&& self.sentinel == 0
        &&& self.pad6@ == bytes::zeros(1)
        &&& self.hdr == SetupHeader::zero()
        &&& self.pad7@ == bytes::zeros(36)
        &&& forall|i: int| 0 <= i < 16 ==> self.edd_mbr_sig_buffer@[i] == 0
        &&& self.e820_table@ == zero_entries(128)
        &&& self.pad8@ == bytes::zeros(48)
        &&& self.eddbuf@ == bytes::zeros(492)
        &&& self.pad9@ == bytes::zeros(276)
    }

    /// The fields in order, each as its bytes.
    pub open spec fn pieces(self) -> Seq<Seq<u8>> {
        seq![
            self.screen_info@,
            self.apm_bios_info@,
            self.pad2@,
            bytes::le_bytes(self.tboot_addr as nat, 8),
            self.ist_info@,
            bytes::le_bytes(self.acpi_rsdp_addr as nat, 8),
            self.pad3@,
            self.hd0_info@,
            self.hd1_info@,
            self.sys_desc_table@,
            self.olpc_ofw_header@,
            bytes::le_bytes(self.ext_ramdisk_image as nat, 4),
            bytes::le_bytes(self.ext_ramdisk_size as nat, 4),
            bytes::le_bytes(self.ext_cmd_line_ptr as nat, 4),
            self.pad4@,
            bytes::le_bytes(self.cc_blob_address as nat, 4),
            self.edid_info@,
            self.efi_info@,
            bytes::le_bytes(self.alt_mem_k as nat, 4),
            bytes::le_bytes(self.scratch as nat, 4),
            seq![self.e820_entries],
            seq![self.eddbuf_entries],
            seq![self.edd_mbr_sig_buf_entries],
            seq![self.kbd_status],
            seq![self.secure_boot],
            self.pad5@,
            seq![self.sentinel],
            self.pad6@,
            self.hdr.layout(),
            self.pad7@,
            words_layout(self.edd_mbr_sig_buffer@),
            table_layout(self.e820_table@),
            self.pad8@,
            self.eddbuf@,
            self.pad9@,
        ]
    }

    /// The bytes of the page, without padding.
    pub open spec fn layout(self) -> Seq<u8> {
        bytes::join(self.pieces())
    }

    /// The bytes of the page.
    pub fn to_bytes(&self) -> (data: Vec<u8>)
        ensures
            data@ == self.layout(),
    {
        let mut w = Writer::new();
        w.raw(&self.screen_info);
        w.raw(&self.apm_bios_info);
        w.raw(&self.pad2);
        w.u64(self.tboot_addr);
        w.raw(&self.ist_info);
        w.u64(self.acpi_rsdp_addr);
        w.raw(&self.pad3);
        w.raw(&self.hd0_info);
        assert(w.pieces() =~= self.pieces().take(8));
        w.raw(&self.hd1_info);
        w.raw(&self.sys_desc_table);
        w.raw(&self.olpc_ofw_header);
        w.u32(self.ext_ramdisk_image);
        w.u32(self.ext_ramdisk_size);
        w.u32(self.ext_cmd_line_ptr);
        w.raw(&self.pad4);
        w.u32(self.cc_blob_address);
        assert(w.pieces() =~= self.pieces().take(16));
        w.raw(&self.edid_info);
        w.raw(&self.efi_info);
        w.u32(self.alt_mem_k);
        w.u32(self.scratch);
        w.u8(self.e820_entries);
        w.u8(self.eddbuf_entries);
        w.u8(self.edd_mbr_sig_buf_entries);
        w.u8(self.kbd_status);
        assert(w.pieces() =~= self.pieces().take(24));
        w.u8(self.secure_boot);
        w.raw(&self.pad5);
        w.u8(self.sentinel);
        w.raw(&self.pad6);
        w.raw(&self.hdr.to_bytes());
        w.raw(&self.pad7);
        w.raw(&word_bytes(&self.edd_mbr_sig_buffer));
        w.raw(&table_bytes(&self.e820_table));
        assert(w.pieces() =~= self.pieces().take(32));
        w.raw(&self.pad8);
        w.raw(&self.eddbuf);
        w.raw(&self.pad9);
        assert(w.pieces() =~= self.pieces());
        w.finish()
    }
}

impl Default for BootParams {
    fn default() -> (params: BootParams)
        ensures
            params.is_clear(),
    {
        let params = BootParams {
            screen_info: [0;64],
            apm_bios_info: [0;20],
            pad2: [0;4],
            tboot_addr: 0,
            ist_info: [0;16],
            acpi_rsdp_addr: 0,
            pad3: [0;8],
            hd0_info: [0;16],
            hd1_info: [0;16],
            sys_desc_table: [0;16],
            olpc_ofw_header: [0;16],
            ext_ramdisk_image: 0,
            ext_ramdisk_size: 0,
            ext_cmd_line_ptr: 0,
            pad4: [0;112],
            cc_blob_address: 0,
            edid_info: [0;128],
            efi_info: [0;32],
            alt_mem_k: 0,
            scratch: 0,
            e820_entries: 0,
            eddbuf_entries: 0,
            edd_mbr_sig_buf_entries: 0,
            kbd_status: 0,
            secure_boot: 0,
            pad5: [0;2],
            sentinel: 0,
            pad6: [0;1],
            hdr: SetupHeader::default(),
            pad7: [0;36],
            edd_mbr_sig_buffer: [0;16],
            e820_table: [BootE820Entry { addr: 0, size: 0, typ: 0 };128],
            pad8: [0;48],
            eddbuf: [0;492],
            pad9: [0;276],
        };
        assert(params.screen_info@ =~= bytes::zeros(64));
        assert(params.apm_bios_info@ =~= bytes::zeros(20));
        assert(params.pad2@ =~= bytes::zeros(4));
        assert(params.ist_info@ =~= bytes::zeros(16));
        assert(params.pad3@ =~= bytes::zeros(8));
        assert(params.hd0_info@ =~= bytes::zeros(16));
        assert(params.hd1_info@ =~= bytes::zeros(16));
        assert(params.sys_desc_table@ =~= bytes::zeros(16));
        assert(params.olpc_ofw_header@ =~= bytes::zeros(16));
        assert(params.pad4@ =~= bytes::zeros(112));
        assert(params.edid_info@ =~= bytes::zeros(128));
        assert(params.efi_info@ =~= bytes::zeros(32));
        assert(params.pad5@ =~= bytes::zeros(2));
        assert(params.pad6@ =~= bytes::zeros(1));
        assert(params.pad7@ =~= bytes::zeros(36));
        assert(params.e820_table@ =~= zero_entries(128));
        assert(params.pad8@ =~= bytes::zeros(48));
        assert(params.eddbuf@ =~= bytes::zeros(492));
        assert(params.pad9@ =~= bytes::zeros(276));
        params
    }
}

/// A page that is clear but for the ACPI root pointer at 0x70, the number of memory map entries at
/// 0x1e8, the setup header at 0x1f1, and the memory map at 0x2d0.
pub open spec fn zero_page(
    acpi_rsdp_addr: u64,
    header: SetupHeader,
    entries: Seq<BootE820Entry>,
) -> Seq<u8> {
    let clear = bytes::zeros(4096);
    let with_rsdp = bytes::overlay(clear, 0x70, bytes::le_bytes(acpi_rsdp_addr as nat, 8));
    let with_count = bytes::overlay(with_rsdp, 0x1e8, seq![entries.len() as u8]);
    let with_header = bytes::overlay(with_count, 0x1f1, header.layout());
    bytes::overlay(with_header, 0x2d0, table_layout(entries))
}

/// The page's bytes where only the four varying parts are set.
proof fn lemma_zero_page(params: BootParams, clear: BootParams, entries: Seq<BootE820Entry>)
    requires
        clear.is_clear(),
        entries.len() <= 128,
        params == (BootParams {
            acpi_rsdp_addr: params.acpi_rsdp_addr,
            e820_entries: entries.len() as u8,
            hdr: params.hdr,
            e820_table: params.e820_table,
            ..clear
        }),
        params.e820_table@ == entries + zero_entries((128 - entries.len()) as nat),
    ensures
        params.layout() == zero_page(params.acpi_rsdp_addr, params.hdr, entries),
{
    broadcast use bytes::lemma_le_bytes_len;

    let page = zero_page(params.acpi_rsdp_addr, params.hdr, entries);
    let p = params.pieces();
    params.hdr.lemma_layout();
    lemma_table_layout(entries);
    lemma_table_padding(entries, (128 - entries.len()) as nat);
    lemma_zero_words(params.edd_mbr_sig_buffer@);
    lemma_zero_bytes(8);
    lemma_zero_bytes(4);
    assert(bytes::join(p.take(0)) =~= page.take(0));
    assert(p[0] =~= page.subrange(0, 64));
    bytes::lemma_join_parts(p, page, 0, 0);
    assert(p[1] =~= page.subrange(64, 84));
    bytes::lemma_join_parts(p, page, 1, 64);
    assert(p[2] =~= page.subrange(84, 88));
    bytes::lemma_join_parts(p, page, 2, 84);
    assert(p[3] =~= page.subrange(88, 96));
    bytes::lemma_join_parts(p, page, 3, 88);
    assert(p[4] =~= page.subrange(96, 112));
    bytes::lemma_join_parts(p, page, 4, 96);
    assert(p[5] =~= page.subrange(112, 120));
    bytes::lemma_join_parts(p, page, 5, 112);
    assert(p[6] =~= page.subrange(120, 128));
    bytes::lemma_join_parts(p, page, 6, 120);
    assert(p[7] =~= page.subrange(128, 144));
    bytes::lemma_join_parts(p, page, 7, 128);
    assert(p[8] =~= page.subrange(144, 160));
    bytes::lemma_join_parts(p, page, 8, 144);
    assert(p[9] =~= page.subrange(160, 176));
    bytes::lemma_join_parts(p, page, 9, 160);
    assert(p[10] =~= page.subrange(176, 192));
    bytes::lemma_join_parts(p, page, 10, 176);
    assert(p[11] =~= page.subrange(192, 196));
    bytes::lemma_join_parts(p, page, 11, 192);
    assert(p[12] =~= page.subrange(196, 200));
    bytes::lemma_join_parts(p, page, 12, 196);
    assert(p[13] =~= page.subrange(200, 204));
    bytes::lemma_join_parts(p, page, 13, 200);
    assert(p[14] =~= page.subrange(204, 316));
    bytes::lemma_join_parts(p, page, 14, 204);
    assert(p[15] =~= page.subrange(316, 320));
    bytes::lemma_join_parts(p, page, 15, 316);
    assert(p[16] =~= page.subrange(320, 448));
    bytes::lemma_join_parts(p, page, 16, 320);
    assert(p[17] =~= page.subrange(448, 480));
    bytes::lemma_join_parts(p, page, 17, 448);
    assert(p[18] =~= page.subrange(480, 484));
    bytes::lemma_join_parts(p, page, 18, 480);
    assert(p[19] =~= page.subrange(484, 488));
    bytes::lemma_join_parts(p, page, 19, 484);
    assert(p[20] =~= page.subrange(488, 489));
    bytes::lemma_join_parts(p, page, 20, 488);
    assert(p[21] =~= page.subrange(489, 490));
    bytes::lemma_join_parts(p, page, 21, 489);
    assert(p[22] =~= page.subrange(490, 491));
    bytes::lemma_join_parts(p, page, 22, 490);
    assert(p[23] =~= page.subrange(491, 492));
    bytes::lemma_join_parts(p, page, 23, 491);
    assert(p[24] =~= page.subrange(492, 493));
    bytes::lemma_join_parts(p, page, 24, 492);
    assert(p[25] =~= page.subrange(493, 495));
    bytes::lemma_join_parts(p, page, 25, 493);
    assert(p[26] =~= page.subrange(495, 496));
    bytes::lemma_join_parts(p, page, 26, 495);
    assert(p[27] =~= page.subrange(496, 497));
    bytes::lemma_join_parts(p, page, 27, 496);
    assert(p[28] =~= page.subrange(497, 620));
    bytes::lemma_join_parts(p, page, 28, 497);
    assert(p[29] =~= page.subrange(620, 656));
    bytes::lemma_join_parts(p, page, 29, 620);
    assert(p[30] =~= page.subrange(656, 720));
    bytes::lemma_join_parts(p, page, 30, 656);
    assert(p[31] =~= page.subrange(720, 3280));
    bytes::lemma_join_parts(p, page, 31, 720);
    assert(p[32] =~= page.subrange(3280, 3328));
    bytes::lemma_join_parts(p, page, 32, 3280);
    assert(p[33] =~= page.subrange(3328, 3820));
    bytes::lemma_join_parts(p, page, 33, 3328);
    assert(p[34] =~= page.subrange(3820, 4096));
    bytes::lemma_join_parts(p, page, 34, 3820);
    assert(p.take(35) =~= p);
    assert(page.take(4096) =~= page);
}

/// Fills in the boot parameters page.
pub fn build_zero_page(
    acpi_rsdp_addr: u64,
    header: SetupHeader,
    entries: &[BootE820Entry],
) -> (page: Vec<u8>)
    requires
        entries@.len() <= E820_MAX_ENTRIES_ZEROPAGE,
    ensures
        page@ == zero_page(acpi_rsdp_addr, header, entries@),
        page@.len() == 4096,
{
    let clear = BootParams::default();
    let mut params = clear;
    params.hdr = header;
    params.acpi_rsdp_addr = acpi_rsdp_addr;
    params.e820_entries = entries.len() as u8;
    let mut index: usize = 0;
    assert(params.e820_table@ =~= entries@.take(0) + zero_entries(128));
    while index < entries.len()
        invariant
            index <= entries@.len() <= 128,
            clear.is_clear(),
            params == (BootParams {
                acpi_rsdp_addr,
                e820_entries: entries@.len() as u8,
                hdr: header,
                e820_table: params.e820_table,
                ..clear
            }),
            params.e820_table@ =~= entries@.take(index as int) + zero_entries(
                (128 - index) as nat,
            ),
        decreases entries@.len() - index,
    {
        params.e820_table[index] = entries[index];
        index = index + 1;
    }
    proof {
        assert(entries@.take(index as int) =~= entries@);
        lemma_zero_page(params, clear, entries@);
    }
    params.to_bytes()
}

/// The memory map entry whose bytes start at `at`.
pub open spec fn entry_at(data: Seq<u8>, at: int) -> BootE820Entry {
    BootE820Entry {
        addr: bytes::u64_at(data, at),
        size: bytes::u64_at(data, at + 8),
        typ: bytes::u32_at(data, at + 16),
    }
}

/// Where an entry's bytes lie, that entry is read.
pub proof fn lemma_entry_in(data: Seq<u8>, at: int, entry: BootE820Entry)
    requires
        0 <= at <= data.len() - 20,
        data.subrange(at, at + 20) == entry.layout(),
    ensures
        entry_at(data, at) == entry,
{
    broadcast use bytes::lemma_le_bytes_len;

    let part = data.subrange(at, at + 20);
    assert(data.subrange(at, at + 8) =~= part.subrange(0, 8));
    assert(part.subrange(0, 8) =~= bytes::le_bytes(entry.addr as nat, 8));
    assert(data.subrange(at + 8, at + 8 + 8) =~= part.subrange(8, 16));
    assert(part.subrange(8, 16) =~= bytes::le_bytes(entry.size as nat, 8));
    assert(data.subrange(at + 16, at + 16 + 4) =~= part.subrange(16, 20));
    assert(part.subrange(16, 20) =~= bytes::le_bytes(entry.typ as nat, 4));
    bytes::lemma_u64_at(data, at, entry.addr);
    bytes::lemma_u64_at(data, at + 8, entry.size);
    bytes::lemma_u32_at(data, at + 16, entry.typ);
}

/// Where the parts of the page lie in it.
pub proof fn lemma_zero_page_parts(
    acpi_rsdp_addr: u64,
    header: SetupHeader,
    entries: Seq<BootE820Entry>,
)
    requires
        entries.len() <= E820_MAX_ENTRIES_ZEROPAGE,
    ensures
        ({
            let page = zero_page(acpi_rsdp_addr, header, entries);
            &&& page.len() == 4096
            &&& page.subrange(0x70, 0x78) == bytes::le_bytes(acpi_rsdp_addr as nat, 8)
            &&& page[0x1e8] == entries.len()
            &&& page.subrange(0x1f1, 0x26c) == header.layout()
            &&& forall|i: int|
                0 <= i < entries.len() ==> #[trigger] page.subrange(
                    0x2d0 + 20 * i,
                    0x2d0 + 20 * i + 20,
                ) == entries[i].layout()
        }),
{
    broadcast use bytes::lemma_le_bytes_len;

    let page = zero_page(acpi_rsdp_addr, header, entries);
    lemma_table_layout(entries);
    header.lemma_layout();
    assert(page.subrange(0x70, 0x78) =~= bytes::le_bytes(acpi_rsdp_addr as nat, 8));
    assert(page.subrange(0x1f1, 0x26c) =~= header.layout());
    assert forall|i: int| 0 <= i < entries.len() implies #[trigger] page.subrange(
        0x2d0 + 20 * i,
        0x2d0 + 20 * i + 20,
    ) == entries[i].layout() by {
        assert(page.subrange(0x2d0 + 20 * i, 0x2d0 + 20 * i + 20) =~= table_layout(
            entries,
        ).subrange(20 * i, 20 * i + 20));
    }
}

/// Where memory holds the page, the kernel finds in it what was put there: the ACPI root pointer, the
/// number of memory map entries, the setup header, and the memory map.
pub proof fn law_zero_page_fields(
    memory: Seq<u8>,
    at: int,
    acpi_rsdp_addr: u64,
    header: SetupHeader,
    entries: Seq<BootE820Entry>,
)
    requires
        entries.len() <= E820_MAX_ENTRIES_ZEROPAGE,
        0 <= at <= memory.len() - 4096,
        memory.subrange(at, at + 4096) == zero_page(acpi_rsdp_addr, header, entries),
    ensures
        bytes::u64_at(memory, at + 0x70) == acpi_rsdp_addr,
        memory[at + 0x1e8] == entries.len(),
        setup_header::header_at(memory, at + 0x1f1) == header,
        forall|i: int|
            0 <= i < entries.len() ==> #[trigger] entry_at(memory, at + 0x2d0 + 20 * i)
                == entries[i],
{
    let page = zero_page(acpi_rsdp_addr, header, entries);
    lemma_zero_page_parts(acpi_rsdp_addr, header, entries);
    assert(page[0x1e8] == memory[at + 0x1e8]);
    assert(memory.subrange(at + 0x70, at + 0x70 + 8) =~= page.subrange(0x70, 0x78));
    bytes::lemma_u64_at(memory, at + 0x70, acpi_rsdp_addr);
    assert(memory.subrange(at + 0x1f1, at + 0x1f1 + 123) =~= page.subrange(0x1f1, 0x26c));
    setup_header::lemma_header_in(memory, at + 0x1f1, header);
    assert forall|i: int| 0 <= i < entries.len() implies #[trigger] entry_at(
        memory,
        at + 0x2d0 + 20 * i,
    ) == entries[i] by {
        let o = at + 0x2d0 + 20 * i;
        assert(memory.subrange(o, o + 20) =~= page.subrange(0x2d0 + 20 * i, 0x2d0 + 20 * i + 20));
        lemma_entry_in(memory, o, entries[i]);
    }
}

} // verus!
