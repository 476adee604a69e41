//! The setup header of a Linux bzImage.
use crate::bytes;
use crate::bytes::Writer;
use crate::error::VmmError;
use vstd::prelude::*;

verus! {

/// Where the setup header lies in an image.
pub const SETUP_HEADER_OFFSET: usize = 0x1f1;

/// The size of the setup header.
pub const SETUP_HEADER_SIZE: usize = 123;

/// The setup header's signature.
pub const LINUX_BOOT_HEADER_MAGIC: u32 = 0x5372_6448;

/// The boot sector's signature.
pub const LINUX_BOOT_FLAG_MAGIC: u16 = 0xaa55;

/// The oldest boot protocol that is supported.
pub const LINUX_MIN_BOOT_PROTOCOL: u16 = 0x020f;

/// The setup header: what an image tells its loader, and what the loader tells the kernel.
#[derive(Debug, Clone, Copy)]
pub struct SetupHeader {
    /// Setup code size in sectors; zero means four.
    pub setup_sects: u8,
    /// Mount the root read-only.
    pub root_flags: u16,
    /// Size of the protected-mode code.
    pub syssize: u32,
    /// Unused.
    pub ram_size: u16,
    /// Video mode.
    pub vid_mode: u16,
    /// Root device number.
    pub root_dev: u16,
    /// Boot sector signature.
    pub boot_flag: u16,
    /// Jump instruction.
    pub jump: u16,
    /// Header signature.
    pub header: u32,
    /// Boot protocol version.
    pub version: u16,
    /// Mode switch hook.
    pub realmode_swtch: u32,
    /// Load segment.
    pub start_sys_seg: u16,
    /// Where the version string is.
    pub kernel_version: u16,
    /// Who loaded the kernel.
    pub type_of_loader: u8,
    /// Load options.
    pub loadflags: u8,
    /// Setup code to move.
    pub setup_move_size: u16,
    /// Entry point of the protected-mode code.
    pub code32_start: u32,
    /// Address of the initrd.
    pub ramdisk_image: u32,
    /// Size of the initrd.
    pub ramdisk_size: u32,
    /// Unused.
    pub bootsect_kludge: u32,
    /// End of the setup heap.
    pub heap_end_ptr: u16,
    /// Loader version extension.
    pub ext_loader_ver: u8,
    /// Loader type extension.
    pub ext_loader_type: u8,
    /// Address of the command line.
    pub cmd_line_ptr: u32,
    /// Last address the initrd may use.
    pub initrd_addr_max: u32,
    /// Alignment the kernel needs.
    pub kernel_alignment: u32,
    /// The kernel can be moved.
    pub relocatable_kernel: u8,
    /// Least alignment, as a power of two.
    pub min_alignment: u8,
    /// Further load options.
    pub xloadflags: u16,
    /// Size of the command line.
    pub cmdline_size: u32,
    /// Platform.
    pub hardware_subarch: u32,
    /// Platform data.
    pub hardware_subarch_data: u64,
    /// Where the payload starts.
    pub payload_offset: u32,
    /// Size of the payload.
    pub payload_length: u32,
    /// Address of further setup data.
    pub setup_data: u64,
    /// Preferred load address.
    pub pref_address: u64,
    /// Memory needed while starting.
    pub init_size: u32,
    /// EFI entry point.
    pub handover_offset: u32,
    /// Where further information is.
    pub kernel_info_offset: u32,
}

impl SetupHeader {
    /// All fields zero.
    pub open spec fn zero() -> SetupHeader {
        SetupHeader {
            setup_sects: 0,
            root_flags: 0,
            syssize: 0,
            ram_size: 0,
            vid_mode: 0,
            root_dev: 0,
            boot_flag: 0,
            jump: 0,
            header: 0,
            version: 0,
            realmode_swtch: 0,
            start_sys_seg: 0,
            kernel_version: 0,
            type_of_loader: 0,
            loadflags: 0,
            setup_move_size: 0,
            code32_start: 0,
            ramdisk_image: 0,
            ramdisk_size: 0,
            bootsect_kludge: 0,
            heap_end_ptr: 0,
            ext_loader_ver: 0,
            ext_loader_type: 0,
            cmd_line_ptr: 0,
            initrd_addr_max: 0,
            kernel_alignment: 0,
            relocatable_kernel: 0,
            min_alignment: 0,
            xloadflags: 0,
            cmdline_size: 0,
            hardware_subarch: 0,
            hardware_subarch_data: 0,
            payload_offset: 0,
            payload_length: 0,
            setup_data: 0,
            pref_address: 0,
            init_size: 0,
            handover_offset: 0,
            kernel_info_offset: 0,
        }
    }

    /// The fields in order, each as its bytes.
    pub open spec fn pieces(self) -> Seq<Seq<u8>> {
        seq![
            seq![self.setup_sects],
            bytes::le_bytes(self.root_flags as nat, 2),
            bytes::le_bytes(self.syssize as nat, 4),
            bytes::le_bytes(self.ram_size as nat, 2),
            bytes::le_bytes(self.vid_mode as nat, 2),
            bytes::le_bytes(self.root_dev as nat, 2),
            bytes::le_bytes(self.boot_flag as nat, 2),
            bytes::le_bytes(self.jump as nat, 2),
            bytes::le_bytes(self.header as nat, 4),
            bytes::le_bytes(self.version as nat, 2),
            bytes::le_bytes(self.realmode_swtch as nat, 4),
            bytes::le_bytes(self.start_sys_seg as nat, 2),
            bytes::le_bytes(self.kernel_version as nat, 2),
            seq![self.type_of_loader],
            seq![self.loadflags],
            bytes::le_bytes(self.setup_move_size as nat, 2),
            bytes::le_bytes(self.code32_start as nat, 4),
            bytes::le_bytes(self.ramdisk_image as nat, 4),
            bytes::le_bytes(self.ramdisk_size as nat, 4),
            bytes::le_bytes(self.bootsect_kludge as nat, 4),
            bytes::le_bytes(self.heap_end_ptr as nat, 2),
            seq![self.ext_loader_ver],
            seq![self.ext_loader_type],
            bytes::le_bytes(self.cmd_line_ptr as nat, 4),
            bytes::le_bytes(self.initrd_addr_max as nat, 4),
            bytes::le_bytes(self.kernel_alignment as nat, 4),
            seq![self.relocatable_kernel],
            seq![self.min_alignment],
            bytes::le_bytes(self.xloadflags as nat, 2),
            bytes::le_bytes(self.cmdline_size as nat, 4),
            bytes::le_bytes(self.hardware_subarch as nat, 4),
            bytes::le_bytes(self.hardware_subarch_data as nat, 8),
            bytes::le_bytes(self.payload_offset as nat, 4),
            bytes::le_bytes(self.payload_length as nat, 4),
            bytes::le_bytes(self.setup_data as nat, 8),
            bytes::le_bytes(self.pref_address as nat, 8),
            bytes::le_bytes(self.init_size as nat, 4),
            bytes::le_bytes(self.handover_offset as nat, 4),
            bytes::le_bytes(self.kernel_info_offset as nat, 4),
        ]
    }

    /// The 123 bytes of the header, without padding.
    pub open spec fn layout(self) -> Seq<u8> {
        bytes::join(self.pieces())
    }

    /// The 123 bytes of the header.
    pub fn to_bytes(&self) -> (data: Vec<u8>)
        ensures
            data@ == self.layout(),
            data@.len() == SETUP_HEADER_SIZE,
    {
        let mut w = Writer::new();
        w.u8(self.setup_sects);
        w.u16(self.root_flags);
        w.u32(self.syssize);
        w.u16(self.ram_size);
        w.u16(self.vid_mode);
        w.u16(self.root_dev);
        w.u16(self.boot_flag);
        w.u16(self.jump);
        assert(w.pieces() =~= self.pieces().take(8));
        w.u32(self.header);
        w.u16(self.version);
        w.u32(self.realmode_swtch);
        w.u16(self.start_sys_seg);
        w.u16(self.kernel_version);
        w.u8(self.type_of_loader);
        w.u8(self.loadflags);
        w.u16(self.setup_move_size);
        assert(w.pieces() =~= self.pieces().take(16));
        w.u32(self.code32_start);
        w.u32(self.ramdisk_image);
        w.u32(self.ramdisk_size);
        w.u32(self.bootsect_kludge);
        w.u16(self.heap_end_ptr);
        w.u8(self.ext_loader_ver);
        w.u8(self.ext_loader_type);
        w.u32(self.cmd_line_ptr);
        assert(w.pieces() =~= self.pieces().take(24));
        w.u32(self.initrd_addr_max);
        w.u32(self.kernel_alignment);
        w.u8(self.relocatable_kernel);
        w.u8(self.min_alignment);
        w.u16(self.xloadflags);
        w.u32(self.cmdline_size);
        w.u32(self.hardware_subarch);
        w.u64(self.hardware_subarch_data);
        assert(w.pieces() =~= self.pieces().take(32));
        w.u32(self.payload_offset);
        w.u32(self.payload_length);
        w.u64(self.setup_data);
        w.u64(self.pref_address);
        w.u32(self.init_size);
        w.u32(self.handover_offset);
        w.u32(self.kernel_info_offset);
        proof {
            assert(w.pieces() =~= self.pieces());
            self.lemma_layout();
        }
        w.finish()
    }

    proof fn lemma_pieces(self)
        ensures
            self.layout().len() == SETUP_HEADER_SIZE,
            self.layout().subrange(0, 1) == seq![self.setup_sects],
            self.layout().subrange(1, 3) == bytes::le_bytes(self.root_flags as nat, 2),
            self.layout().subrange(3, 7) == bytes::le_bytes(self.syssize as nat, 4),
            self.layout().subrange(7, 9) == bytes::le_bytes(self.ram_size as nat, 2),
            self.layout().subrange(9, 11) == bytes::le_bytes(self.vid_mode as nat, 2),
            self.layout().subrange(11, 13) == bytes::le_bytes(self.root_dev as nat, 2),
            self.layout().subrange(13, 15) == bytes::le_bytes(self.boot_flag as nat, 2),
            self.layout().subrange(15, 17) == bytes::le_bytes(self.jump as nat, 2),
            self.layout().subrange(17, 21) == bytes::le_bytes(self.header as nat, 4),
            self.layout().subrange(21, 23) == bytes::le_bytes(self.version as nat, 2),
            self.layout().subrange(23, 27) == bytes::le_bytes(self.realmode_swtch as nat, 4),
            self.layout().subrange(27, 29) == bytes::le_bytes(self.start_sys_seg as nat, 2),
            self.layout().subrange(29, 31) == bytes::le_bytes(self.kernel_version as nat, 2),
            self.layout().subrange(31, 32) == seq![self.type_of_loader],
            self.layout().subrange(32, 33) == seq![self.loadflags],
            self.layout().subrange(33, 35) == bytes::le_bytes(self.setup_move_size as nat, 2),
            self.layout().subrange(35, 39) == bytes::le_bytes(self.code32_start as nat, 4),
            self.layout().subrange(39, 43) == bytes::le_bytes(self.ramdisk_image as nat, 4),
            self.layout().subrange(43, 47) == bytes::le_bytes(self.ramdisk_size as nat, 4),
            self.layout().subrange(47, 51) == bytes::le_bytes(self.bootsect_kludge as nat, 4),
            self.layout().subrange(51, 53) == bytes::le_bytes(self.heap_end_ptr as nat, 2),
            self.layout().subrange(53, 54) == seq![self.ext_loader_ver],
            self.layout().subrange(54, 55) == seq![self.ext_loader_type],
            self.layout().subrange(55, 59) == bytes::le_bytes(self.cmd_line_ptr as nat, 4),
            self.layout().subrange(59, 63) == bytes::le_bytes(self.initrd_addr_max as nat, 4),
            self.layout().subrange(63, 67) == bytes::le_bytes(self.kernel_alignment as nat, 4),
            self.layout().subrange(67, 68) == seq![self.relocatable_kernel],
            self.layout().subrange(68, 69) == seq![self.min_alignment],
            self.layout().subrange(69, 71) == bytes::le_bytes(self.xloadflags as nat, 2),
            self.layout().subrange(71, 75) == bytes::le_bytes(self.cmdline_size as nat, 4),
            self.layout().subrange(75, 79) == bytes::le_bytes(self.hardware_subarch as nat, 4),
            self.layout().subrange(79, 87) == bytes::le_bytes(self.hardware_subarch_data as nat, 8),
            self.layout().subrange(87, 91) == bytes::le_bytes(self.payload_offset as nat, 4),
            self.layout().subrange(91, 95) == bytes::le_bytes(self.payload_length as nat, 4),
            self.layout().subrange(95, 103) == bytes::le_bytes(self.setup_data as nat, 8),
            self.layout().subrange(103, 111) == bytes::le_bytes(self.pref_address as nat, 8),
            self.layout().subrange(111, 115) == bytes::le_bytes(self.init_size as nat, 4),
            self.layout().subrange(115, 119) == bytes::le_bytes(self.handover_offset as nat, 4),
            self.layout().subrange(119, 123) == bytes::le_bytes(self.kernel_info_offset as nat, 4),
    {
        broadcast use bytes::lemma_le_bytes_len;

        let p = self.pieces();
        assert(bytes::join(p.take(0)).len() == 0);
        bytes::lemma_piece(p, 0, 0);
        bytes::lemma_piece(p, 1, 1);
        bytes::lemma_piece(p, 2, 3);
        bytes::lemma_piece(p, 3, 7);
        bytes::lemma_piece(p, 4, 9);
        bytes::lemma_piece(p, 5, 11);
        bytes::lemma_piece(p, 6, 13);
        bytes::lemma_piece(p, 7, 15);
        bytes::lemma_piece(p, 8, 17);
        bytes::lemma_piece(p, 9, 21);
        bytes::lemma_piece(p, 10, 23);
        bytes::lemma_piece(p, 11, 27);
        bytes::lemma_piece(p, 12, 29);
        bytes::lemma_piece(p, 13, 31);
        bytes::lemma_piece(p, 14, 32);
        bytes::lemma_piece(p, 15, 33);
        bytes::lemma_piece(p, 16, 35);
        bytes::lemma_piece(p, 17, 39);
        bytes::lemma_piece(p, 18, 43);
        bytes::lemma_piece(p, 19, 47);
        bytes::lemma_piece(p, 20, 51);
        bytes::lemma_piece(p, 21, 53);
        bytes::lemma_piece(p, 22, 54);
        bytes::lemma_piece(p, 23, 55);
        bytes::lemma_piece(p, 24, 59);
        bytes::lemma_piece(p, 25, 63);
        bytes::lemma_piece(p, 26, 67);
        bytes::lemma_piece(p, 27, 68);
        bytes::lemma_piece(p, 28, 69);
        bytes::lemma_piece(p, 29, 71);
        bytes::lemma_piece(p, 30, 75);
        bytes::lemma_piece(p, 31, 79);
        bytes::lemma_piece(p, 32, 87);
        bytes::lemma_piece(p, 33, 91);
        bytes::lemma_piece(p, 34, 95);
        bytes::lemma_piece(p, 35, 103);
        bytes::lemma_piece(p, 36, 111);
        bytes::lemma_piece(p, 37, 115);
        bytes::lemma_piece(p, 38, 119);
        assert(p.take(39) =~= p);
    }

    /// Every field lies at its offset, and the whole has its size.
    pub proof fn lemma_layout(self)
        ensures
            self.layout().len() == SETUP_HEADER_SIZE,
            header_at(self.layout(), 0) == self,
    {
        self.lemma_pieces();
        let l = self.layout();
        assert(l.subrange(0, 1)[0] == l[0]);
        bytes::lemma_u16_at(l, 1, self.root_flags);
        bytes::lemma_u32_at(l, 3, self.syssize);
        bytes::lemma_u16_at(l, 7, self.ram_size);
        bytes::lemma_u16_at(l, 9, self.vid_mode);
        bytes::lemma_u16_at(l, 11, self.root_dev);
        bytes::lemma_u16_at(l, 13, self.boot_flag);
        bytes::lemma_u16_at(l, 15, self.jump);
        bytes::lemma_u32_at(l, 17, self.header);
        bytes::lemma_u16_at(l, 21, self.version);
        bytes::lemma_u32_at(l, 23, self.realmode_swtch);
        bytes::lemma_u16_at(l, 27, self.start_sys_seg);
        bytes::lemma_u16_at(l, 29, self.kernel_version);
        assert(l.subrange(31, 32)[0] == l[31]);
        assert(l.subrange(32, 33)[0] == l[32]);
        bytes::lemma_u16_at(l, 33, self.setup_move_size);
        bytes::lemma_u32_at(l, 35, self.code32_start);
        bytes::lemma_u32_at(l, 39, self.ramdisk_image);
        bytes::lemma_u32_at(l, 43, self.ramdisk_size);
        bytes::lemma_u32_at(l, 47, self.bootsect_kludge);
        bytes::lemma_u16_at(l, 51, self.heap_end_ptr);
        assert(l.subrange(53, 54)[0] == l[53]);
        assert(l.subrange(54, 55)[0] == l[54]);
        bytes::lemma_u32_at(l, 55, self.cmd_line_ptr);
        bytes::lemma_u32_at(l, 59, self.initrd_addr_max);
        bytes::lemma_u32_at(l, 63, self.kernel_alignment);
        assert(l.subrange(67, 68)[0] == l[67]);
        assert(l.subrange(68, 69)[0] == l[68]);
        bytes::lemma_u16_at(l, 69, self.xloadflags);
        bytes::lemma_u32_at(l, 71, self.cmdline_size);
        bytes::lemma_u32_at(l, 75, self.hardware_subarch);
        bytes::lemma_u64_at(l, 79, self.hardware_subarch_data);
        bytes::lemma_u32_at(l, 87, self.payload_offset);
        bytes::lemma_u32_at(l, 91, self.payload_length);
        bytes::lemma_u64_at(l, 95, self.setup_data);
        bytes::lemma_u64_at(l, 103, self.pref_address);
        bytes::lemma_u32_at(l, 111, self.init_size);
        bytes::lemma_u32_at(l, 115, self.handover_offset);
        bytes::lemma_u32_at(l, 119, self.kernel_info_offset);
    }
}

impl Default for SetupHeader {
    fn default() -> (header: SetupHeader)
        ensures
            header == SetupHeader::zero(),
    {
        SetupHeader {
            setup_sects: 0,
            root_flags: 0,
            syssize: 0,
            ram_size: 0,
            vid_mode: 0,
            root_dev: 0,
            boot_flag: 0,
            jump: 0,
            header: 0,
            version: 0,
            realmode_swtch: 0,
            start_sys_seg: 0,
            kernel_version: 0,
            type_of_loader: 0,
            loadflags: 0,
            setup_move_size: 0,
            code32_start: 0,
            ramdisk_image: 0,
            ramdisk_size: 0,
            bootsect_kludge: 0,
            heap_end_ptr: 0,
            ext_loader_ver: 0,
            ext_loader_type: 0,
            cmd_line_ptr: 0,
            initrd_addr_max: 0,
            kernel_alignment: 0,
            relocatable_kernel: 0,
            min_alignment: 0,
            xloadflags: 0,
            cmdline_size: 0,
            hardware_subarch: 0,
            hardware_subarch_data: 0,
            payload_offset: 0,
            payload_length: 0,
            setup_data: 0,
            pref_address: 0,
            init_size: 0,
            handover_offset: 0,
            kernel_info_offset: 0,
        }
    }
}

/// The setup header whose bytes start at `at`.
pub open spec fn header_at(data: Seq<u8>, at: int) -> SetupHeader {
    SetupHeader {
        setup_sects: data[at],
        root_flags: bytes::u16_at(data, at + 1),
        syssize: bytes::u32_at(data, at + 3),
        ram_size: bytes::u16_at(data, at + 7),
        vid_mode: bytes::u16_at(data, at + 9),
        root_dev: bytes::u16_at(data, at + 11),
        boot_flag: bytes::u16_at(data, at + 13),
        jump: bytes::u16_at(data, at + 15),
        header: bytes::u32_at(data, at + 17),
        version: bytes::u16_at(data, at + 21),
        realmode_swtch: bytes::u32_at(data, at + 23),
        start_sys_seg: bytes::u16_at(data, at + 27),
        kernel_version: bytes::u16_at(data, at + 29),
        type_of_loader: data[at + 31],
        loadflags: data[at + 32],
        setup_move_size: bytes::u16_at(data, at + 33),
        code32_start: bytes::u32_at(data, at + 35),
        ramdisk_image: bytes::u32_at(data, at + 39),
        ramdisk_size: bytes::u32_at(data, at + 43),
        bootsect_kludge: bytes::u32_at(data, at + 47),
        heap_end_ptr: bytes::u16_at(data, at + 51),
        ext_loader_ver: data[at + 53],
        ext_loader_type: data[at + 54],
        cmd_line_ptr: bytes::u32_at(data, at + 55),
        initrd_addr_max: bytes::u32_at(data, at + 59),
        kernel_alignment: bytes::u32_at(data, at + 63),
        relocatable_kernel: data[at + 67],
        min_alignment: data[at + 68],
        xloadflags: bytes::u16_at(data, at + 69),
        cmdline_size: bytes::u32_at(data, at + 71),
        hardware_subarch: bytes::u32_at(data, at + 75),
        hardware_subarch_data: bytes::u64_at(data, at + 79),
        payload_offset: bytes::u32_at(data, at + 87),
        payload_length: bytes::u32_at(data, at + 91),
        setup_data: bytes::u64_at(data, at + 95),
        pref_address: bytes::u64_at(data, at + 103),
        init_size: bytes::u32_at(data, at + 111),
        handover_offset: bytes::u32_at(data, at + 115),
        kernel_info_offset: bytes::u32_at(data, at + 119),
    }
}

fn read_header(data: &[u8], at: usize) -> (header: SetupHeader)
    requires
        at + SETUP_HEADER_SIZE <= data@.len(),
    ensures
        header == header_at(data@, at as int),
{
    assert(data@.len() == data.len());
    SetupHeader {
        setup_sects: data[at],
        root_flags: bytes::read_u16(data, at + 1),
        syssize: bytes::read_u32(data, at + 3),
        ram_size: bytes::read_u16(data, at + 7),
        vid_mode: bytes::read_u16(data, at + 9),
        root_dev: bytes::read_u16(data, at + 11),
        boot_flag: bytes::read_u16(data, at + 13),
        jump: bytes::read_u16(data, at + 15),
        header: bytes::read_u32(data, at + 17),
        version: bytes::read_u16(data, at + 21),
        realmode_swtch: bytes::read_u32(data, at + 23),
        start_sys_seg: bytes::read_u16(data, at + 27),
        kernel_version: bytes::read_u16(data, at + 29),
        type_of_loader: data[at + 31],
        loadflags: data[at + 32],
        setup_move_size: bytes::read_u16(data, at + 33),
        code32_start: bytes::read_u32(data, at + 35),
        ramdisk_image: bytes::read_u32(data, at + 39),
        ramdisk_size: bytes::read_u32(data, at + 43),
        bootsect_kludge: bytes::read_u32(data, at + 47),
        heap_end_ptr: bytes::read_u16(data, at + 51),
        ext_loader_ver: data[at + 53],
        ext_loader_type: data[at + 54],
        cmd_line_ptr: bytes::read_u32(data, at + 55),
        initrd_addr_max: bytes::read_u32(data, at + 59),
        kernel_alignment: bytes::read_u32(data, at + 63),
        relocatable_kernel: data[at + 67],
        min_alignment: data[at + 68],
        xloadflags: bytes::read_u16(data, at + 69),
        cmdline_size: bytes::read_u32(data, at + 71),
        hardware_subarch: bytes::read_u32(data, at + 75),
        hardware_subarch_data: bytes::read_u64(data, at + 79),
        payload_offset: bytes::read_u32(data, at + 87),
        payload_length: bytes::read_u32(data, at + 91),
        setup_data: bytes::read_u64(data, at + 95),
        pref_address: bytes::read_u64(data, at + 103),
        init_size: bytes::read_u32(data, at + 111),
        handover_offset: bytes::read_u32(data, at + 115),
        kernel_info_offset: bytes::read_u32(data, at + 119),
    }
}

/// Why `image` is no bzImage that can be booted, if it is none.
pub open spec fn setup_header_error(image: Seq<u8>) -> Option<VmmError> {
    let header = header_at(image, SETUP_HEADER_OFFSET as int);
    if image.len() < SETUP_HEADER_OFFSET + SETUP_HEADER_SIZE {
        Some(VmmError::ImageTooSmall)
    } else if header.boot_flag != LINUX_BOOT_FLAG_MAGIC {
        Some(VmmError::InvalidBootFlag)
    } else if header.header != LINUX_BOOT_HEADER_MAGIC {
        Some(VmmError::InvalidHeaderMagic)
    } else if header.version < LINUX_MIN_BOOT_PROTOCOL {
        Some(VmmError::BootProtocolTooOld { version: header.version })
    } else {
        None
    }
}

/// Reads the setup header of a bzImage.
pub fn parse_setup_header(image: &[u8]) -> (res: Result<SetupHeader, VmmError>)
    ensures
        match res {
            Ok(header) => setup_header_error(image@) is None && header == header_at(
                image@,
                SETUP_HEADER_OFFSET as int,
            ),
            Err(e) => setup_header_error(image@) == Some(e),
        },
{
    if image.len() < SETUP_HEADER_OFFSET + SETUP_HEADER_SIZE {
        return Err(VmmError::ImageTooSmall);
    }
    let header = read_header(image, SETUP_HEADER_OFFSET);
    if header.boot_flag != LINUX_BOOT_FLAG_MAGIC {
        return Err(VmmError::InvalidBootFlag);
    }
    if header.header != LINUX_BOOT_HEADER_MAGIC {
        return Err(VmmError::InvalidHeaderMagic);
    }
    if header.version < LINUX_MIN_BOOT_PROTOCOL {
        return Err(VmmError::BootProtocolTooOld { version: header.version });
    }
    Ok(header)
}

/// Where a header's bytes lie, that header is read.
pub proof fn lemma_header_in(data: Seq<u8>, at: int, header: SetupHeader)
    requires
        0 <= at <= data.len() - SETUP_HEADER_SIZE,
        data.subrange(at, at + SETUP_HEADER_SIZE) == header.layout(),
    ensures
        header_at(data, at) == header,
{
    header.lemma_layout();
    let n = SETUP_HEADER_SIZE as int;
    bytes::lemma_byte_within(data, at, n, 0);
    bytes::lemma_u16_within(data, at, n, 1);
    bytes::lemma_u32_within(data, at, n, 3);
    bytes::lemma_u16_within(data, at, n, 7);
    bytes::lemma_u16_within(data, at, n, 9);
    bytes::lemma_u16_within(data, at, n, 11);
    bytes::lemma_u16_within(data, at, n, 13);
    bytes::lemma_u16_within(data, at, n, 15);
    bytes::lemma_u32_within(data, at, n, 17);
    bytes::lemma_u16_within(data, at, n, 21);
    bytes::lemma_u32_within(data, at, n, 23);
    bytes::lemma_u16_within(data, at, n, 27);
    bytes::lemma_u16_within(data, at, n, 29);
    bytes::lemma_byte_within(data, at, n, 31);
    bytes::lemma_byte_within(data, at, n, 32);
    bytes::lemma_u16_within(data, at, n, 33);
    bytes::lemma_u32_within(data, at, n, 35);
    bytes::lemma_u32_within(data, at, n, 39);
    bytes::lemma_u32_within(data, at, n, 43);
    bytes::lemma_u32_within(data, at, n, 47);
    bytes::lemma_u16_within(data, at, n, 51);
    bytes::lemma_byte_within(data, at, n, 53);
    bytes::lemma_byte_within(data, at, n, 54);
    bytes::lemma_u32_within(data, at, n, 55);
    bytes::lemma_u32_within(data, at, n, 59);
    bytes::lemma_u32_within(data, at, n, 63);
    bytes::lemma_byte_within(data, at, n, 67);
    bytes::lemma_byte_within(data, at, n, 68);
    bytes::lemma_u16_within(data, at, n, 69);
    bytes::lemma_u32_within(data, at, n, 71);
    bytes::lemma_u32_within(data, at, n, 75);
    bytes::lemma_u64_within(data, at, n, 79);
    bytes::lemma_u32_within(data, at, n, 87);
    bytes::lemma_u32_within(data, at, n, 91);
    bytes::lemma_u64_within(data, at, n, 95);
    bytes::lemma_u64_within(data, at, n, 103);
    bytes::lemma_u32_within(data, at, n, 111);
    bytes::lemma_u32_within(data, at, n, 115);
    bytes::lemma_u32_within(data, at, n, 119);
}

/// A header read back from its bytes is the same header.
pub proof fn law_header_round_trip(header: SetupHeader)
    ensures
        header_at(header.layout(), 0) == header,
{
    header.lemma_layout();
}

/// A header's bytes are those that it was read from: reading loses nothing of them.
pub proof fn law_header_keeps_every_byte(data: Seq<u8>, at: int)
    requires
        0 <= at <= data.len() - SETUP_HEADER_SIZE,
    ensures
        header_at(data, at).layout() == data.subrange(at, at + SETUP_HEADER_SIZE),
{
    let part = data.subrange(at, at + SETUP_HEADER_SIZE);
    let p = header_at(data, at).pieces();
    bytes::lemma_le_capacities();
    assert(bytes::join(p.take(0)) =~= part.take(0));
    assert(p[0] =~= part.subrange(0, 1));
    bytes::lemma_join_parts(p, part, 0, 0);
    assert(data.subrange(at + 1, at + 3) =~= part.subrange(1, 3));
    bytes::lemma_le_bytes_of_value(part.subrange(1, 3));
    bytes::lemma_join_parts(p, part, 1, 1);
    assert(data.subrange(at + 3, at + 7) =~= part.subrange(3, 7));
    bytes::lemma_le_bytes_of_value(part.subrange(3, 7));
    bytes::lemma_join_parts(p, part, 2, 3);
    assert(data.subrange(at + 7, at + 9) =~= part.subrange(7, 9));
    bytes::lemma_le_bytes_of_value(part.subrange(7, 9));
    bytes::lemma_join_parts(p, part, 3, 7);
    assert(data.subrange(at + 9, at + 11) =~= part.subrange(9, 11));
    bytes::lemma_le_bytes_of_value(part.subrange(9, 11));
    bytes::lemma_join_parts(p, part, 4, 9);
    assert(data.subrange(at + 11, at + 13) =~= part.subrange(11, 13));
    bytes::lemma_le_bytes_of_value(part.subrange(11, 13));
    bytes::lemma_join_parts(p, part, 5, 11);
    assert(data.subrange(at + 13, at + 15) =~= part.subrange(13, 15));
    bytes::lemma_le_bytes_of_value(part.subrange(13, 15));
    bytes::lemma_join_parts(p, part, 6, 13);
    assert(data.subrange(at + 15, at + 17) =~= part.subrange(15, 17));
    bytes::lemma_le_bytes_of_value(part.subrange(15, 17));
    bytes::lemma_join_parts(p, part, 7, 15);
    assert(data.subrange(at + 17, at + 21) =~= part.subrange(17, 21));
    bytes::lemma_le_bytes_of_value(part.subrange(17, 21));
    bytes::lemma_join_parts(p, part, 8, 17);
    assert(data.subrange(at + 21, at + 23) =~= part.subrange(21, 23));
    bytes::lemma_le_bytes_of_value(part.subrange(21, 23));
    bytes::lemma_join_parts(p, part, 9, 21);
    assert(data.subrange(at + 23, at + 27) =~= part.subrange(23, 27));
    bytes::lemma_le_bytes_of_value(part.subrange(23, 27));
    bytes::lemma_join_parts(p, part, 10, 23);
    assert(data.subrange(at + 27, at + 29) =~= part.subrange(27, 29));
    bytes::lemma_le_bytes_of_value(part.subrange(27, 29));
    bytes::lemma_join_parts(p, part, 11, 27);
    assert(data.subrange(at + 29, at + 31) =~= part.subrange(29, 31));
    bytes::lemma_le_bytes_of_value(part.subrange(29, 31));
    bytes::lemma_join_parts(p, part, 12, 29);
    assert(p[13] =~= part.subrange(31, 32));
    bytes::lemma_join_parts(p, part, 13, 31);
    assert(p[14] =~= part.subrange(32, 33));
    bytes::lemma_join_parts(p, part, 14, 32);
    assert(data.subrange(at + 33, at + 35) =~= part.subrange(33, 35));
    bytes::lemma_le_bytes_of_value(part.subrange(33, 35));
    bytes::lemma_join_parts(p, part, 15, 33);
    assert(data.subrange(at + 35, at + 39) =~= part.subrange(35, 39));
    bytes::lemma_le_bytes_of_value(part.subrange(35, 39));
    bytes::lemma_join_parts(p, part, 16, 35);
    assert(data.subrange(at + 39, at + 43) =~= part.subrange(39, 43));
    bytes::lemma_le_bytes_of_value(part.subrange(39, 43));
    bytes::lemma_join_parts(p, part, 17, 39);
    assert(data.subrange(at + 43, at + 47) =~= part.subrange(43, 47));
    bytes::lemma_le_bytes_of_value(part.subrange(43, 47));
    bytes::lemma_join_parts(p, part, 18, 43);
    assert(data.subrange(at + 47, at + 51) =~= part.subrange(47, 51));
    bytes::lemma_le_bytes_of_value(part.subrange(47, 51));
    bytes::lemma_join_parts(p, part, 19, 47);
    assert(data.subrange(at + 51, at + 53) =~= part.subrange(51, 53));
    bytes::lemma_le_bytes_of_value(part.subrange(51, 53));
    bytes::lemma_join_parts(p, part, 20, 51);
    assert(p[21] =~= part.subrange(53, 54));
    bytes::lemma_join_parts(p, part, 21, 53);
    assert(p[22] =~= part.subrange(54, 55));
    bytes::lemma_join_parts(p, part, 22, 54);
    assert(data.subrange(at + 55, at + 59) =~= part.subrange(55, 59));
    bytes::lemma_le_bytes_of_value(part.subrange(55, 59));
    bytes::lemma_join_parts(p, part, 23, 55);
    assert(data.subrange(at + 59, at + 63) =~= part.subrange(59, 63));
    bytes::lemma_le_bytes_of_value(part.subrange(59, 63));
    bytes::lemma_join_parts(p, part, 24, 59);
    assert(data.subrange(at + 63, at + 67) =~= part.subrange(63, 67));
    bytes::lemma_le_bytes_of_value(part.subrange(63, 67));
    bytes::lemma_join_parts(p, part, 25, 63);
    assert(p[26] =~= part.subrange(67, 68));
    bytes::lemma_join_parts(p, part, 26, 67);
    assert(p[27] =~= part.subrange(68, 69));
    bytes::lemma_join_parts(p, part, 27, 68);
    assert(data.subrange(at + 69, at + 71) =~= part.subrange(69, 71));
    bytes::lemma_le_bytes_of_value(part.subrange(69, 71));
    bytes::lemma_join_parts(p, part, 28, 69);
    assert(data.subrange(at + 71, at + 75) =~= part.subrange(71, 75));
    bytes::lemma_le_bytes_of_value(part.subrange(71, 75));
    bytes::lemma_join_parts(p, part, 29, 71);
    assert(data.subrange(at + 75, at + 79) =~= part.subrange(75, 79));
    bytes::lemma_le_bytes_of_value(part.subrange(75, 79));
    bytes::lemma_join_parts(p, part, 30, 75);
    assert(data.subrange(at + 79, at + 87) =~= part.subrange(79, 87));
    bytes::lemma_le_bytes_of_value(part.subrange(79, 87));
    bytes::lemma_join_parts(p, part, 31, 79);
    assert(data.subrange(at + 87, at + 91) =~= part.subrange(87, 91));
    bytes::lemma_le_bytes_of_value(part.subrange(87, 91));
    bytes::lemma_join_parts(p, part, 32, 87);
    assert(data.subrange(at + 91, at + 95) =~= part.subrange(91, 95));
    bytes::lemma_le_bytes_of_value(part.subrange(91, 95));
    bytes::lemma_join_parts(p, part, 33, 91);
    assert(data.subrange(at + 95, at + 103) =~= part.subrange(95, 103));
    bytes::lemma_le_bytes_of_value(part.subrange(95, 103));
    bytes::lemma_join_parts(p, part, 34, 95);
    assert(data.subrange(at + 103, at + 111) =~= part.subrange(103, 111));
    bytes::lemma_le_bytes_of_value(part.subrange(103, 111));
    bytes::lemma_join_parts(p, part, 35, 103);
    assert(data.subrange(at + 111, at + 115) =~= part.subrange(111, 115));
    bytes::lemma_le_bytes_of_value(part.subrange(111, 115));
    bytes::lemma_join_parts(p, part, 36, 111);
    assert(data.subrange(at + 115, at + 119) =~= part.subrange(115, 119));
    bytes::lemma_le_bytes_of_value(part.subrange(115, 119));
    bytes::lemma_join_parts(p, part, 37, 115);
    assert(data.subrange(at + 119, at + 123) =~= part.subrange(119, 123));
    bytes::lemma_le_bytes_of_value(part.subrange(119, 123));
    bytes::lemma_join_parts(p, part, 38, 119);
    assert(p.take(39) =~= p);
    assert(part.take(123) =~= part);
}

} // verus!
