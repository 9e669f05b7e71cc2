//! The fixed vocabulary of the foreign object model: which objects can be
//! made, which interfaces they answer to, and the flag bits of its calls.

use vstd::prelude::*;

verus! {

/// A 128-bit identifier, written as the object model prints it: the digits of
/// `73e22d93-e6ce-47f3-b5bf-f0664f39c1b0`, read as one number.
pub type Guid = u128;

/// A 128-bit identifier in the four fields in which the object model passes
/// it: the first eight digits, the next four, the next four, and the last
/// sixteen as eight bytes.
#[derive(Debug, Clone, Copy, PartialEq, Eq)]
pub struct GuidFields {
    pub data1: u32,
    pub data2: u16,
    pub data3: u16,
    pub data4: [u8; 8],
}

/// Whether `fields` are the fields of `id`: each field holds its digits of
/// the identifier, the first digits in `data1` and the last two in the last
/// byte of `data4`.
pub open spec fn fields_of(id: Guid, fields: GuidFields) -> bool {
    &&& fields.data1 == id / 0x1_0000_0000_0000_0000_0000_0000u128
    &&& fields.data2 == (id / 0x1_0000_0000_0000_0000_0000u128) % 0x1_0000u128
    &&& fields.data3 == (id / 0x1_0000_0000_0000_0000u128) % 0x1_0000u128
    &&& fields.data4@.len() == 8
    &&& fields.data4@[0] == (id / 0x100_0000_0000_0000u128) % 0x100u128
    &&& fields.data4@[1] == (id / 0x1_0000_0000_0000u128) % 0x100u128
    &&& fields.data4@[2] == (id / 0x100_0000_0000u128) % 0x100u128
    &&& fields.data4@[3] == (id / 0x1_0000_0000u128) % 0x100u128
    &&& fields.data4@[4] == (id / 0x100_0000u128) % 0x100u128
    &&& fields.data4@[5] == (id / 0x1_0000u128) % 0x100u128
    &&& fields.data4@[6] == (id / 0x100u128) % 0x100u128
    &&& fields.data4@[7] == id % 0x100u128
}

/// One byte of `id`: the eight bits that have `shift` bits behind them.
fn byte_at(id: Guid, shift: u32) -> (byte: u8)
    requires
        shift <= 56,
        shift % 8 == 0,
    ensures
        byte == (id >> shift) & 0xffu128,
{
    let bits: u128 = (id >> shift) & 0xff;
    assert(bits <= 0xff) by (bit_vector)
        requires
            bits == (id >> shift) & 0xffu128,
    ;
    bits as u8
}

/// Splits an identifier into the fields in which the object model passes it.
pub fn guid_fields(id: Guid) -> (fields: GuidFields)
    ensures
        fields_of(id, fields),
{
    let first: u128 = id >> 96;
    let second: u128 = (id >> 80) & 0xffff;
    let third: u128 = (id >> 64) & 0xffff;
    assert(first <= 0xffff_ffff && first == id / 0x1_0000_0000_0000_0000_0000_0000u128)
        by (bit_vector)
        requires
            first == id >> 96,
    ;
    assert(second <= 0xffff && second == (id / 0x1_0000_0000_0000_0000_0000u128) % 0x1_0000u128)
        by (bit_vector)
        requires
            second == (id >> 80) & 0xffffu128,
    ;
    assert(third <= 0xffff && third == (id / 0x1_0000_0000_0000_0000u128) % 0x1_0000u128)
        by (bit_vector)
        requires
            third == (id >> 64) & 0xffffu128,
    ;
    assert((id >> 56u32) & 0xffu128 == (id / 0x100_0000_0000_0000u128) % 0x100u128)
        by (bit_vector);
    assert((id >> 48u32) & 0xffu128 == (id / 0x1_0000_0000_0000u128) % 0x100u128)
        by (bit_vector);
    assert((id >> 40u32) & 0xffu128 == (id / 0x100_0000_0000u128) % 0x100u128) by (bit_vector);
    assert((id >> 32u32) & 0xffu128 == (id / 0x1_0000_0000u128) % 0x100u128) by (bit_vector);
    assert((id >> 24u32) & 0xffu128 == (id / 0x100_0000u128) % 0x100u128) by (bit_vector);
    assert((id >> 16u32) & 0xffu128 == (id / 0x1_0000u128) % 0x100u128) by (bit_vector);
    assert((id >> 8u32) & 0xffu128 == (id / 0x100u128) % 0x100u128) by (bit_vector);
    assert((id >> 0u32) & 0xffu128 == id % 0x100u128) by (bit_vector);
    GuidFields {
        data1: first as u32,
        data2: second as u16,
        data3: third as u16,
        data4: [
            byte_at(id, 56),
            byte_at(id, 48),
            byte_at(id, 40),
            byte_at(id, 32),
            byte_at(id, 24),
            byte_at(id, 16),
            byte_at(id, 8),
            byte_at(id, 0),
        ],
    }
}

/// The fields name the identifier: two identifiers with the same fields are
/// the same.
pub proof fn lemma_fields_name_the_identifier(a: Guid, b: Guid, fields: GuidFields)
    requires
        fields_of(a, fields),
        fields_of(b, fields),
    ensures
        a == b,
{
    assert(a == b) by (bit_vector)
        requires
            a / 0x1_0000_0000_0000_0000_0000_0000u128 == b / 0x1_0000_0000_0000_0000_0000_0000u128,
            (a / 0x1_0000_0000_0000_0000_0000u128) % 0x1_0000u128 == (b
                / 0x1_0000_0000_0000_0000_0000u128) % 0x1_0000u128,
            (a / 0x1_0000_0000_0000_0000u128) % 0x1_0000u128 == (b / 0x1_0000_0000_0000_0000u128)
                % 0x1_0000u128,
            (a / 0x100_0000_0000_0000u128) % 0x100u128 == (b / 0x100_0000_0000_0000u128)
                % 0x100u128,
            (a / 0x1_0000_0000_0000u128) % 0x100u128 == (b / 0x1_0000_0000_0000u128) % 0x100u128,
            (a / 0x100_0000_0000u128) % 0x100u128 == (b / 0x100_0000_0000u128) % 0x100u128,
            (a / 0x1_0000_0000u128) % 0x100u128 == (b / 0x1_0000_0000u128) % 0x100u128,
            (a / 0x100_0000u128) % 0x100u128 == (b / 0x100_0000u128) % 0x100u128,
            (a / 0x1_0000u128) % 0x100u128 == (b / 0x1_0000u128) % 0x100u128,
            (a / 0x100u128) % 0x100u128 == (b / 0x100u128) % 0x100u128,
            a % 0x100u128 == b % 0x100u128,
    ;
}

/// A preprocessor definition as the compiler takes it: a name and, where one
/// was given, a value, each as a nul-terminated wide string.
#[derive(Debug)]
pub struct DxcDefine<W> {
    pub name: Vec<W>,
    pub value: Option<Vec<W>>,
}

impl<W> DxcDefine<W> {
    /// The units of the name.
    pub open spec fn name_units(&self) -> Seq<W> {
        self.name@
    }

    /// The units of the value, if there is one.
    pub open spec fn value_units(&self) -> Option<Seq<W>> {
        match self.value {
            Some(value) => Some(value@),
            None => None,
        }
    }
}

pub const DXC_VALIDATOR_FLAGS_DEFAULT: u32 = 0u32;

/// The validator may update the container in place.
pub const DXC_VALIDATOR_FLAGS_IN_PLACE_EDIT: u32 = 1u32;

pub const DXC_VALIDATOR_FLAGS_ROOT_SIGNATURE_ONLY: u32 = 2u32;

pub const DXC_VALIDATOR_FLAGS_MODULE_ONLY: u32 = 4u32;

/// Every bit that a validator flag word may have set.
pub const DXC_VALIDATOR_FLAGS_VALID_MASK: u32 = 0x7u32;

pub const DXC_VERSION_INFO_FLAGS_NONE: u32 = 0u32;

/// A debug build.
pub const DXC_VERSION_INFO_FLAGS_DEBUG: u32 = 1u32;

/// A validator that does not sign.
pub const DXC_VERSION_INFO_FLAGS_INTERNAL: u32 = 2u32;

#[allow(non_upper_case_globals)]
pub const CLSID_DxcCompiler: Guid = 0x73e22d93_e6ce_47f3_b5bf_f0664f39c1b0u128;

#[allow(non_upper_case_globals)]
pub const CLSID_DxcLinker: Guid = 0xef6a8087_b0ea_4d56_9e45_d07e1a8b7806u128;

#[allow(non_upper_case_globals)]
pub const CLSID_DxcDiaDataSource: Guid = 0xcd1f6b73_2ab0_484d_8edc_ebe7a43ca09fu128;

#[allow(non_upper_case_globals)]
pub const CLSID_DxcLibrary: Guid = 0x6245d6af_66e0_48fd_80b4_4d271796748cu128;

#[allow(non_upper_case_globals)]
pub const CLSID_DxcValidator: Guid = 0x8ca3e215_f728_4cf3_8cdd_88af917587a1u128;

#[allow(non_upper_case_globals)]
pub const CLSID_DxcAssembler: Guid = 0xd728db68_f903_4f80_94cd_dccf76ec7151u128;

#[allow(non_upper_case_globals)]
pub const CLSID_DxcContainerReflection: Guid = 0xb9f54489_55b8_400c_ba3a_1675e4728b91u128;

#[allow(non_upper_case_globals)]
pub const CLSID_DxcOptimizer: Guid = 0xae2cd79f_cc22_453f_9b6b_b124e7a5204cu128;

#[allow(non_upper_case_globals)]
pub const CLSID_DxcContainerBuilder: Guid = 0x94134294_411f_4574_b4d0_8741e25240d2u128;

/// The objects that the foreign component can be asked to make.
#[derive(Debug, Clone, Copy, PartialEq, Eq, Structural)]
pub enum DxcClass {
    Compiler,
    Linker,
    DiaDataSource,
    Library,
    Validator,
    Assembler,
    ContainerReflection,
    Optimizer,
    ContainerBuilder,
}

impl DxcClass {
    /// The identifier under which the class is asked for.
    pub open spec fn spec_clsid(self) -> Guid {
        match self {
            DxcClass::Compiler => CLSID_DxcCompiler,
            DxcClass::Linker => CLSID_DxcLinker,
            DxcClass::DiaDataSource => CLSID_DxcDiaDataSource,
            DxcClass::Library => CLSID_DxcLibrary,
            DxcClass::Validator => CLSID_DxcValidator,
            DxcClass::Assembler => CLSID_DxcAssembler,
            DxcClass::ContainerReflection => CLSID_DxcContainerReflection,
            DxcClass::Optimizer => CLSID_DxcOptimizer,
            DxcClass::ContainerBuilder => CLSID_DxcContainerBuilder,
        }
    }

    /// The identifier under which the class is asked for.
    #[verifier::when_used_as_spec(spec_clsid)]
    pub fn clsid(self) -> (id: Guid)
        ensures
            id == self.spec_clsid(),
    {
        match self {
            DxcClass::Compiler => CLSID_DxcCompiler,
            DxcClass::Linker => CLSID_DxcLinker,
            DxcClass::DiaDataSource => CLSID_DxcDiaDataSource,
            DxcClass::Library => CLSID_DxcLibrary,
            DxcClass::Validator => CLSID_DxcValidator,
            DxcClass::Assembler => CLSID_DxcAssembler,
            DxcClass::ContainerReflection => CLSID_DxcContainerReflection,
            DxcClass::Optimizer => CLSID_DxcOptimizer,
            DxcClass::ContainerBuilder => CLSID_DxcContainerBuilder,
        }
    }
}

/// The interfaces of the foreign object model.
#[derive(Debug, Clone, Copy, PartialEq, Eq, Structural)]
pub enum DxcInterface {
    Blob,
    BlobEncoding,
    Library,
    OperationResult,
    IncludeHandler,
    Compiler,
    Compiler2,
    Linker,
    Validator,
    ContainerBuilder,
    Assembler,
    ContainerReflection,
    OptimizerPass,
    Optimizer,
    VersionInfo,
    VersionInfo2,
}

impl DxcInterface {
    /// The identifier under which an object is asked for the interface.
    pub open spec fn spec_iid(self) -> Guid {
        match self {
            DxcInterface::Blob => 0x8ba5fb08_5195_40e2_ac58_0d989c3a0102u128,
            DxcInterface::BlobEncoding => 0x7241d424_2646_4191_97c0_98e96e42fc68u128,
            DxcInterface::Library => 0xe5204dc7_d18c_4c3c_bdfb_851673980fe7u128,
            DxcInterface::OperationResult => 0xcedb484a_d4e9_445a_b991_ca21ca157dc2u128,
            DxcInterface::IncludeHandler => 0x7f61fc7d_950d_467f_b3e3_3c02fb49187cu128,
            DxcInterface::Compiler => 0x8c210bf3_011f_4422_8d70_6f9acb8db617u128,
            DxcInterface::Compiler2 => 0xa005a9d9_b8bb_4594_b5c9_0e633bec4d37u128,
            DxcInterface::Linker => 0xf1b5be2a_62dd_4327_a1c2_42ac1e1e78e6u128,
            DxcInterface::Validator => 0xa6e82bd2_1fd7_4826_9811_2857e797f49au128,
            DxcInterface::ContainerBuilder => 0x334b1f50_2292_4b35_99a1_25588d8c17feu128,
            DxcInterface::Assembler => 0x091f7a26_1c1f_4948_904b_e6e3a8a771d5u128,
            DxcInterface::ContainerReflection => 0xd2c21b26_8350_4bdc_976a_331ce6f4c54cu128,
            DxcInterface::OptimizerPass => 0xae2cd79f_cc22_453f_9b6b_b124e7a5204cu128,
            DxcInterface::Optimizer => 0x25740e2e_9cba_401b_9119_4fb42f39f270u128,
            DxcInterface::VersionInfo => 0xb04f5b50_2059_4f12_a8ff_a1e0cde1cc7eu128,
            DxcInterface::VersionInfo2 => 0xfb6904c4_42f0_4b62_9c46_983af7da7c83u128,
        }
    }

    /// The identifier under which an object is asked for the interface.
    #[verifier::when_used_as_spec(spec_iid)]
    pub fn iid(self) -> (id: Guid)
        ensures
            id == self.spec_iid(),
    {
        match self {
            DxcInterface::Blob => 0x8ba5fb08_5195_40e2_ac58_0d989c3a0102u128,
            DxcInterface::BlobEncoding => 0x7241d424_2646_4191_97c0_98e96e42fc68u128,
            DxcInterface::Library => 0xe5204dc7_d18c_4c3c_bdfb_851673980fe7u128,
            DxcInterface::OperationResult => 0xcedb484a_d4e9_445a_b991_ca21ca157dc2u128,
            DxcInterface::IncludeHandler => 0x7f61fc7d_950d_467f_b3e3_3c02fb49187cu128,
            DxcInterface::Compiler => 0x8c210bf3_011f_4422_8d70_6f9acb8db617u128,
            DxcInterface::Compiler2 => 0xa005a9d9_b8bb_4594_b5c9_0e633bec4d37u128,
            DxcInterface::Linker => 0xf1b5be2a_62dd_4327_a1c2_42ac1e1e78e6u128,
            DxcInterface::Validator => 0xa6e82bd2_1fd7_4826_9811_2857e797f49au128,
            DxcInterface::ContainerBuilder => 0x334b1f50_2292_4b35_99a1_25588d8c17feu128,
            DxcInterface::Assembler => 0x091f7a26_1c1f_4948_904b_e6e3a8a771d5u128,
            DxcInterface::ContainerReflection => 0xd2c21b26_8350_4bdc_976a_331ce6f4c54cu128,
            DxcInterface::OptimizerPass => 0xae2cd79f_cc22_453f_9b6b_b124e7a5204cu128,
            DxcInterface::Optimizer => 0x25740e2e_9cba_401b_9119_4fb42f39f270u128,
            DxcInterface::VersionInfo => 0xb04f5b50_2059_4f12_a8ff_a1e0cde1cc7eu128,
            DxcInterface::VersionInfo2 => 0xfb6904c4_42f0_4b62_9c46_983af7da7c83u128,
        }
    }
}

/// No two classes share an identifier, so an identifier names its class.
pub proof fn lemma_clsid_injective(a: DxcClass, b: DxcClass)
    requires
        a.spec_clsid() == b.spec_clsid(),
    ensures
        a == b,
{
}

/// No two interfaces share an identifier, so an identifier names its
/// interface.
pub proof fn lemma_iid_injective(a: DxcInterface, b: DxcInterface)
    requires
        a.spec_iid() == b.spec_iid(),
    ensures
        a == b,
{
}

} // verus!
