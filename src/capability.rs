//! Which host features the capabilities that a module declares depend on.
use vstd::prelude::*;
use crate::module::Capability;

verus! {

/// A device feature flag that the host must enable.
#[derive(Clone, Copy, Debug, PartialEq, Eq, Structural)]
pub enum HostFeature {
    GeometryShader,
    TessellationShader,
    ShaderFloat64,
    ShaderInt64,
    ShaderInt16,
    ShaderTessellationAndGeometryPointSize,
    ShaderImageGatherExtended,
    ShaderStorageImageMultisample,
    ShaderUniformBufferArrayDynamicIndexing,
    ShaderSampledImageArrayDynamicIndexing,
    ShaderStorageBufferArrayDynamicIndexing,
    ShaderStorageImageArrayDynamicIndexing,
    ShaderClipDistance,
    ShaderCullDistance,
    ImageCubeArray,
    SampleRateShading,
    ShaderResourceResidency,
    ShaderResourceMinLod,
    ShaderStorageImageExtendedFormats,
    ShaderStorageImageReadWithoutFormat,
    ShaderStorageImageWriteWithoutFormat,
    MultiViewport,
}

impl HostFeature {
    /// The name of the feature flag.
    pub open spec fn spec_name(self) -> Seq<char> {
        match self {
            HostFeature::GeometryShader => "geometryShader"@,
            HostFeature::TessellationShader => "tessellationShader"@,
            HostFeature::ShaderFloat64 => "shaderFloat64"@,
            HostFeature::ShaderInt64 => "shaderInt64"@,
            HostFeature::ShaderInt16 => "shaderInt16"@,
            HostFeature::ShaderTessellationAndGeometryPointSize => "shaderTessellationAndGeometryPointSize"@,
            HostFeature::ShaderImageGatherExtended => "shaderImageGatherExtended"@,
            HostFeature::ShaderStorageImageMultisample => "shaderStorageImageMultisample"@,
            HostFeature::ShaderUniformBufferArrayDynamicIndexing => "shaderUniformBufferArrayDynamicIndexing"@,
            HostFeature::ShaderSampledImageArrayDynamicIndexing => "shaderSampledImageArrayDynamicIndexing"@,
            HostFeature::ShaderStorageBufferArrayDynamicIndexing => "shaderStorageBufferArrayDynamicIndexing"@,
            HostFeature::ShaderStorageImageArrayDynamicIndexing => "shaderStorageImageArrayDynamicIndexing"@,
            HostFeature::ShaderClipDistance => "shaderClipDistance"@,
            HostFeature::ShaderCullDistance => "shaderCullDistance"@,
            HostFeature::ImageCubeArray => "imageCubeArray"@,
            HostFeature::SampleRateShading => "sampleRateShading"@,
            HostFeature::ShaderResourceResidency => "shaderResourceResidency"@,
            HostFeature::ShaderResourceMinLod => "shaderResourceMinLod"@,
            HostFeature::ShaderStorageImageExtendedFormats => "shaderStorageImageExtendedFormats"@,
            HostFeature::ShaderStorageImageReadWithoutFormat => "shaderStorageImageReadWithoutFormat"@,
            HostFeature::ShaderStorageImageWriteWithoutFormat => "shaderStorageImageWriteWithoutFormat"@,
            HostFeature::MultiViewport => "multiViewport"@,
        }
    }

    /// The name of the feature flag.
    pub fn name(&self) -> (r: &'static str)
        ensures
            r@ == self.spec_name(),
    {
        match self {
            HostFeature::GeometryShader => "geometryShader",
            HostFeature::TessellationShader => "tessellationShader",
            HostFeature::ShaderFloat64 => "shaderFloat64",
            HostFeature::ShaderInt64 => "shaderInt64",
            HostFeature::ShaderInt16 => "shaderInt16",
            HostFeature::ShaderTessellationAndGeometryPointSize => "shaderTessellationAndGeometryPointSize",
            HostFeature::ShaderImageGatherExtended => "shaderImageGatherExtended",
            HostFeature::ShaderStorageImageMultisample => "shaderStorageImageMultisample",
            HostFeature::ShaderUniformBufferArrayDynamicIndexing => "shaderUniformBufferArrayDynamicIndexing",
            HostFeature::ShaderSampledImageArrayDynamicIndexing => "shaderSampledImageArrayDynamicIndexing",
            HostFeature::ShaderStorageBufferArrayDynamicIndexing => "shaderStorageBufferArrayDynamicIndexing",
            HostFeature::ShaderStorageImageArrayDynamicIndexing => "shaderStorageImageArrayDynamicIndexing",
            HostFeature::ShaderClipDistance => "shaderClipDistance",
            HostFeature::ShaderCullDistance => "shaderCullDistance",
            HostFeature::ImageCubeArray => "imageCubeArray",
            HostFeature::SampleRateShading => "sampleRateShading",
            HostFeature::ShaderResourceResidency => "shaderResourceResidency",
            HostFeature::ShaderResourceMinLod => "shaderResourceMinLod",
            HostFeature::ShaderStorageImageExtendedFormats => "shaderStorageImageExtendedFormats",
            HostFeature::ShaderStorageImageReadWithoutFormat => "shaderStorageImageReadWithoutFormat",
            HostFeature::ShaderStorageImageWriteWithoutFormat => "shaderStorageImageWriteWithoutFormat",
            HostFeature::MultiViewport => "multiViewport",
        }
    }
}

/// What a declared capability asks of the host.
#[derive(Clone, Copy, Debug, PartialEq, Eq, Structural)]
pub enum CapabilityRequirement {
    /// Every conformant implementation has it.
    AlwaysAvailable,
    /// The host must have this feature enabled.
    RequiresFeature(HostFeature),
    /// The target runtime never supports it.
    Unsupported,
}

/// The fixed table from capability to requirement.
pub open spec fn requirement_of(cap: Capability) -> CapabilityRequirement {
    match cap {
        Capability::Matrix => CapabilityRequirement::AlwaysAvailable,
        Capability::Shader => CapabilityRequirement::AlwaysAvailable,
        Capability::Geometry => CapabilityRequirement::RequiresFeature(HostFeature::GeometryShader),
        Capability::Tessellation => CapabilityRequirement::RequiresFeature(HostFeature::TessellationShader),
        Capability::Addresses => CapabilityRequirement::Unsupported,
        Capability::Linkage => CapabilityRequirement::Unsupported,
        Capability::Kernel => CapabilityRequirement::Unsupported,
        Capability::Vector16 => CapabilityRequirement::Unsupported,
        Capability::Float16Buffer => CapabilityRequirement::Unsupported,
        Capability::Float16 => CapabilityRequirement::Unsupported,
        Capability::Float64 => CapabilityRequirement::RequiresFeature(HostFeature::ShaderFloat64),
        Capability::Int64 => CapabilityRequirement::RequiresFeature(HostFeature::ShaderInt64),
        Capability::Int64Atomics => CapabilityRequirement::Unsupported,
        Capability::ImageBasic => CapabilityRequirement::Unsupported,
        Capability::ImageReadWrite => CapabilityRequirement::Unsupported,
        Capability::ImageMipmap => CapabilityRequirement::Unsupported,
        Capability::Pipes => CapabilityRequirement::Unsupported,
        Capability::Groups => CapabilityRequirement::Unsupported,
        Capability::DeviceEnqueue => CapabilityRequirement::Unsupported,
        Capability::LiteralSampler => CapabilityRequirement::Unsupported,
        Capability::AtomicStorage => CapabilityRequirement::Unsupported,
        Capability::Int16 => CapabilityRequirement::RequiresFeature(HostFeature::ShaderInt16),
        Capability::TessellationPointSize => CapabilityRequirement::RequiresFeature(HostFeature::ShaderTessellationAndGeometryPointSize),
        Capability::GeometryPointSize => CapabilityRequirement::RequiresFeature(HostFeature::ShaderTessellationAndGeometryPointSize),
        Capability::ImageGatherExtended => CapabilityRequirement::RequiresFeature(HostFeature::ShaderImageGatherExtended),
        Capability::StorageImageMultisample => CapabilityRequirement::RequiresFeature(HostFeature::ShaderStorageImageMultisample),
        Capability::UniformBufferArrayDynamicIndexing => CapabilityRequirement::RequiresFeature(HostFeature::ShaderUniformBufferArrayDynamicIndexing),
        Capability::SampledImageArrayDynamicIndexing => CapabilityRequirement::RequiresFeature(HostFeature::ShaderSampledImageArrayDynamicIndexing),
        Capability::StorageBufferArrayDynamicIndexing => CapabilityRequirement::RequiresFeature(HostFeature::ShaderStorageBufferArrayDynamicIndexing),
        Capability::StorageImageArrayDynamicIndexing => CapabilityRequirement::RequiresFeature(HostFeature::ShaderStorageImageArrayDynamicIndexing),
        Capability::ClipDistance => CapabilityRequirement::RequiresFeature(HostFeature::ShaderClipDistance),
        Capability::CullDistance => CapabilityRequirement::RequiresFeature(HostFeature::ShaderCullDistance),
        Capability::ImageCubeArray => CapabilityRequirement::RequiresFeature(HostFeature::ImageCubeArray),
        Capability::SampleRateShading => CapabilityRequirement::RequiresFeature(HostFeature::SampleRateShading),
        Capability::ImageRect => CapabilityRequirement::Unsupported,
        Capability::SampledRect => CapabilityRequirement::Unsupported,
        Capability::GenericPointer => CapabilityRequirement::Unsupported,
        Capability::Int8 => CapabilityRequirement::Unsupported,
        Capability::InputAttachment => CapabilityRequirement::AlwaysAvailable,
        Capability::SparseResidency => CapabilityRequirement::RequiresFeature(HostFeature::ShaderResourceResidency),
        Capability::MinLod => CapabilityRequirement::RequiresFeature(HostFeature::ShaderResourceMinLod),
        Capability::Sampled1D => CapabilityRequirement::AlwaysAvailable,
        Capability::Image1D => CapabilityRequirement::AlwaysAvailable,
        Capability::SampledCubeArray => CapabilityRequirement::RequiresFeature(HostFeature::ImageCubeArray),
        Capability::SampledBuffer => CapabilityRequirement::AlwaysAvailable,
        Capability::ImageBuffer => CapabilityRequirement::AlwaysAvailable,
        Capability::ImageMSArray => CapabilityRequirement::RequiresFeature(HostFeature::ShaderStorageImageMultisample),
        Capability::StorageImageExtendedFormats => CapabilityRequirement::RequiresFeature(HostFeature::ShaderStorageImageExtendedFormats),
        Capability::ImageQuery => CapabilityRequirement::AlwaysAvailable,
        Capability::DerivativeControl => CapabilityRequirement::AlwaysAvailable,
        Capability::InterpolationFunction => CapabilityRequirement::RequiresFeature(HostFeature::SampleRateShading),
        Capability::TransformFeedback => CapabilityRequirement::Unsupported,
        Capability::GeometryStreams => CapabilityRequirement::Unsupported,
        Capability::StorageImageReadWithoutFormat => CapabilityRequirement::RequiresFeature(HostFeature::ShaderStorageImageReadWithoutFormat),
        Capability::StorageImageWriteWithoutFormat => CapabilityRequirement::RequiresFeature(HostFeature::ShaderStorageImageWriteWithoutFormat),
        Capability::MultiViewport => CapabilityRequirement::RequiresFeature(HostFeature::MultiViewport),
    }
}

/// The requirement that declaring `cap` places on the host.
pub fn capability_name(cap: &Capability) -> (r: CapabilityRequirement)
    ensures
        r == requirement_of(*cap),
{
    match *cap {
        Capability::Matrix => CapabilityRequirement::AlwaysAvailable,
        Capability::Shader => CapabilityRequirement::AlwaysAvailable,
        Capability::Geometry => CapabilityRequirement::RequiresFeature(HostFeature::GeometryShader),
        Capability::Tessellation => CapabilityRequirement::RequiresFeature(HostFeature::TessellationShader),
        Capability::Addresses => CapabilityRequirement::Unsupported,
        Capability::Linkage => CapabilityRequirement::Unsupported,
        Capability::Kernel => CapabilityRequirement::Unsupported,
        Capability::Vector16 => CapabilityRequirement::Unsupported,
        Capability::Float16Buffer => CapabilityRequirement::Unsupported,
        Capability::Float16 => CapabilityRequirement::Unsupported,
        Capability::Float64 => CapabilityRequirement::RequiresFeature(HostFeature::ShaderFloat64),
        Capability::Int64 => CapabilityRequirement::RequiresFeature(HostFeature::ShaderInt64),
        Capability::Int64Atomics => CapabilityRequirement::Unsupported,
        Capability::ImageBasic => CapabilityRequirement::Unsupported,
        Capability::ImageReadWrite => CapabilityRequirement::Unsupported,
        Capability::ImageMipmap => CapabilityRequirement::Unsupported,
        Capability::Pipes => CapabilityRequirement::Unsupported,
        Capability::Groups => CapabilityRequirement::Unsupported,
        Capability::DeviceEnqueue => CapabilityRequirement::Unsupported,
        Capability::LiteralSampler => CapabilityRequirement::Unsupported,
        Capability::AtomicStorage => CapabilityRequirement::Unsupported,
        Capability::Int16 => CapabilityRequirement::RequiresFeature(HostFeature::ShaderInt16),
        Capability::TessellationPointSize => CapabilityRequirement::RequiresFeature(HostFeature::ShaderTessellationAndGeometryPointSize),
        Capability::GeometryPointSize => CapabilityRequirement::RequiresFeature(HostFeature::ShaderTessellationAndGeometryPointSize),
        Capability::ImageGatherExtended => CapabilityRequirement::RequiresFeature(HostFeature::ShaderImageGatherExtended),
        Capability::StorageImageMultisample => CapabilityRequirement::RequiresFeature(HostFeature::ShaderStorageImageMultisample),
        Capability::UniformBufferArrayDynamicIndexing => CapabilityRequirement::RequiresFeature(HostFeature::ShaderUniformBufferArrayDynamicIndexing),
        Capability::SampledImageArrayDynamicIndexing => CapabilityRequirement::RequiresFeature(HostFeature::ShaderSampledImageArrayDynamicIndexing),
        Capability::StorageBufferArrayDynamicIndexing => CapabilityRequirement::RequiresFeature(HostFeature::ShaderStorageBufferArrayDynamicIndexing),
        Capability::StorageImageArrayDynamicIndexing => CapabilityRequirement::RequiresFeature(HostFeature::ShaderStorageImageArrayDynamicIndexing),
        Capability::ClipDistance => CapabilityRequirement::RequiresFeature(HostFeature::ShaderClipDistance),
        Capability::CullDistance => CapabilityRequirement::RequiresFeature(HostFeature::ShaderCullDistance),
        Capability::ImageCubeArray => CapabilityRequirement::RequiresFeature(HostFeature::ImageCubeArray),
        Capability::SampleRateShading => CapabilityRequirement::RequiresFeature(HostFeature::SampleRateShading),
        Capability::ImageRect => CapabilityRequirement::Unsupported,
        Capability::SampledRect => CapabilityRequirement::Unsupported,
        Capability::GenericPointer => CapabilityRequirement::Unsupported,
        Capability::Int8 => CapabilityRequirement::Unsupported,
        Capability::InputAttachment => CapabilityRequirement::AlwaysAvailable,
        Capability::SparseResidency => CapabilityRequirement::RequiresFeature(HostFeature::ShaderResourceResidency),
        Capability::MinLod => CapabilityRequirement::RequiresFeature(HostFeature::ShaderResourceMinLod),
        Capability::Sampled1D => CapabilityRequirement::AlwaysAvailable,
        Capability::Image1D => CapabilityRequirement::AlwaysAvailable,
        Capability::SampledCubeArray => CapabilityRequirement::RequiresFeature(HostFeature::ImageCubeArray),
        Capability::SampledBuffer => CapabilityRequirement::AlwaysAvailable,
        Capability::ImageBuffer => CapabilityRequirement::AlwaysAvailable,
        Capability::ImageMSArray => CapabilityRequirement::RequiresFeature(HostFeature::ShaderStorageImageMultisample),
        Capability::StorageImageExtendedFormats => CapabilityRequirement::RequiresFeature(HostFeature::ShaderStorageImageExtendedFormats),
        Capability::ImageQuery => CapabilityRequirement::AlwaysAvailable,
        Capability::DerivativeControl => CapabilityRequirement::AlwaysAvailable,
        Capability::InterpolationFunction => CapabilityRequirement::RequiresFeature(HostFeature::SampleRateShading),
        Capability::TransformFeedback => CapabilityRequirement::Unsupported,
        Capability::GeometryStreams => CapabilityRequirement::Unsupported,
        Capability::StorageImageReadWithoutFormat => CapabilityRequirement::RequiresFeature(HostFeature::ShaderStorageImageReadWithoutFormat),
        Capability::StorageImageWriteWithoutFormat => CapabilityRequirement::RequiresFeature(HostFeature::ShaderStorageImageWriteWithoutFormat),
        Capability::MultiViewport => CapabilityRequirement::RequiresFeature(HostFeature::MultiViewport),
    }
}

} // verus!
