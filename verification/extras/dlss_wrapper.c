/* The two NGX helpers that the SDK ships as inline functions only, with C linkage. */
#include <stdbool.h>
#include <string.h>

#include "nvsdk_ngx_helpers_dlssd_vk.h"

/* The evaluation parameters that are set; all others are zero. */
typedef struct {
    NVSDK_NGX_Resource_VK *pInColor;
    NVSDK_NGX_Resource_VK *pInOutput;
    NVSDK_NGX_Resource_VK *pInDepth;
    NVSDK_NGX_Resource_VK *pInMotionVectors;
    NVSDK_NGX_Resource_VK *pInDiffuseAlbedo;
    NVSDK_NGX_Resource_VK *pInSpecularAlbedo;
    NVSDK_NGX_Resource_VK *pInNormals;
    NVSDK_NGX_Resource_VK *pInRoughness;
    NVSDK_NGX_Resource_VK *pInSpecularHitDistance;
    float *pInWorldToViewMatrix;
    float *pInViewToClipMatrix;
    unsigned int InRenderSubrectWidth;
    unsigned int InRenderSubrectHeight;
    float InMVScaleX;
    float InMVScaleY;
    float InJitterOffsetX;
    float InJitterOffsetY;
    int InReset;
} pumicite_sr_eval_params;

NVSDK_NGX_Result pumicite_sr_ngx_vulkan_create_dlssd_ext1(
    VkDevice device, VkCommandBuffer command_buffer, unsigned int creation_node_mask,
    unsigned int visibility_node_mask, NVSDK_NGX_Handle **handle,
    NVSDK_NGX_Parameter *parameters, NVSDK_NGX_DLSSD_Create_Params *create_params) {
    return NGX_VULKAN_CREATE_DLSSD_EXT1(device, command_buffer, creation_node_mask,
                                        visibility_node_mask, handle, parameters, create_params);
}

NVSDK_NGX_Result pumicite_sr_ngx_vulkan_evaluate_dlssd_ext(
    VkCommandBuffer command_buffer, NVSDK_NGX_Handle *handle, NVSDK_NGX_Parameter *parameters,
    const pumicite_sr_eval_params *p) {
    NVSDK_NGX_VK_DLSSD_Eval_Params eval;
    memset(&eval, 0, sizeof(eval));
    eval.pInColor = p->pInColor;
    eval.pInOutput = p->pInOutput;
    eval.pInDepth = p->pInDepth;
    eval.pInMotionVectors = p->pInMotionVectors;
    eval.pInDiffuseAlbedo = p->pInDiffuseAlbedo;
    eval.pInSpecularAlbedo = p->pInSpecularAlbedo;
    eval.pInNormals = p->pInNormals;
    eval.pInRoughness = p->pInRoughness;
    eval.pInSpecularHitDistance = p->pInSpecularHitDistance;
    eval.pInWorldToViewMatrix = p->pInWorldToViewMatrix;
    eval.pInViewToClipMatrix = p->pInViewToClipMatrix;
    eval.InRenderSubrectDimensions.Width = p->InRenderSubrectWidth;
    eval.InRenderSubrectDimensions.Height = p->InRenderSubrectHeight;
    eval.InMVScaleX = p->InMVScaleX;
    eval.InMVScaleY = p->InMVScaleY;
    eval.InJitterOffsetX = p->InJitterOffsetX;
    eval.InJitterOffsetY = p->InJitterOffsetY;
    eval.InReset = p->InReset;
    return NGX_VULKAN_EVALUATE_DLSSD_EXT(command_buffer, handle, parameters, &eval);
}
